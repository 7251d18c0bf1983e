use minigrep::config::Config;
use minigrep::render::decimal_string;
use minigrep::render::render;
use minigrep::text::contains_text;

fn config(query: &str, ignore_case: bool) -> Config {
    Config { query: query.to_string(), path: "poem.txt".to_string(), ignore_case }
}

#[test]
fn a_part_of_the_text_is_found() {
    assert!(contains_text("safe, fast, productive.", "duct"));
    assert!(contains_text("safe, fast, productive.", "safe"));
    assert!(contains_text("safe, fast, productive.", "productive."));
    assert!(contains_text("abc", "abc"));
}

#[test]
fn what_is_no_part_of_the_text_is_not_found() {
    assert!(!contains_text("safe, fast, productive.", "Duct"));
    assert!(!contains_text("safe, fast, productive.", "sf"));
    assert!(!contains_text("abc", "abcd"));
    assert!(!contains_text("", "a"));
}

#[test]
fn the_empty_text_is_part_of_every_text() {
    assert!(contains_text("Rust:", ""));
    assert!(contains_text("", ""));
}

#[test]
fn letters_beyond_ascii_are_found() {
    assert!(contains_text("na\u{ef}ve caf\u{e9}", "\u{ef}ve"));
    assert!(!contains_text("na\u{ef}ve caf\u{e9}", "ive"));
}

#[test]
fn exact_case_is_required_when_case_counts() {
    assert!(config("Rust", false).is_match("Rust:"));
    assert!(!config("rust", false).is_match("Rust:"));
    assert!(!config("rUsT", false).is_match("Rust:"));
    assert!(!config("RUST", false).is_match("Trust me."));
}

#[test]
fn case_is_folded_on_both_sides_when_it_does_not_count() {
    assert!(config("rUsT", true).is_match("Rust:"));
    assert!(config("RUST", true).is_match("Trust me."));
    assert!(config("rust", true).is_match("TRUST"));
    assert!(!config("rUsT", true).is_match("Pick three."));
}

#[test]
fn case_folding_reaches_beyond_ascii() {
    assert!(config("\u{c9}COLE", true).is_match("l'\u{e9}cole"));
    assert!(config("\u{e9}cole", true).is_match("L'\u{c9}COLE"));
    assert!(!config("\u{c9}COLE", false).is_match("l'\u{e9}cole"));
}

#[test]
fn an_empty_query_matches_every_line() {
    assert!(config("", false).is_match("Rust:"));
    assert!(config("", false).is_match(""));
    assert!(config("", true).is_match("Rust:"));
    assert!(config("", true).is_match(""));
}

#[test]
fn numerals_are_decimal() {
    assert_eq!(decimal_string(0), "0");
    assert_eq!(decimal_string(1), "1");
    assert_eq!(decimal_string(9), "9");
    assert_eq!(decimal_string(10), "10");
    assert_eq!(decimal_string(99), "99");
    assert_eq!(decimal_string(100), "100");
    assert_eq!(decimal_string(12345), "12345");
    assert_eq!(decimal_string(9_876_543_210), "9876543210");
}

#[test]
fn the_largest_numeral_is_written_in_full() {
    assert_eq!(decimal_string(usize::MAX), format!("{}", usize::MAX));
}

#[test]
fn an_output_line_is_ordinal_colon_space_line() {
    assert_eq!(render(2, "safe, fast, productive."), "2: safe, fast, productive.");
    assert_eq!(render(1, ""), "1: ");
    assert_eq!(render(120, "  indented"), "120:   indented");
    assert_eq!(render(7, "3: nested"), "7: 3: nested");
}
