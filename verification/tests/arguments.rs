use minigrep::config::Config;
use minigrep::error::exit_code;
use minigrep::error::Argument;
use minigrep::error::GrepError;

fn args(words: &[&str]) -> Vec<String> {
    words.iter().map(|word| word.to_string()).collect()
}

#[test]
fn two_positionals_make_a_config() {
    let built = Config::build(&args(&["minigrep", "duct", "poem.txt"]), false);
    let config = built.expect("two positional arguments were given");
    assert_eq!(config.query, "duct");
    assert_eq!(config.path, "poem.txt");
    assert!(!config.ignore_case);
}

#[test]
fn the_toggle_is_taken_as_given() {
    let config = Config::build(&args(&["minigrep", "duct", "poem.txt"]), true).unwrap();
    assert!(config.ignore_case);
    assert_eq!(config.query, "duct");
    assert_eq!(config.path, "poem.txt");
}

#[test]
fn the_program_name_is_passed_over() {
    let config = Config::build(&args(&["", "needle", "hay"]), false).unwrap();
    assert_eq!(config.query, "needle");
    assert_eq!(config.path, "hay");
}

#[test]
fn further_arguments_are_disregarded() {
    let config = Config::build(&args(&["minigrep", "a", "b", "c", "d"]), false).unwrap();
    assert_eq!(config.query, "a");
    assert_eq!(config.path, "b");
}

#[test]
fn an_empty_query_is_accepted() {
    let config = Config::build(&args(&["minigrep", "", "poem.txt"]), false).unwrap();
    assert_eq!(config.query, "");
}

#[test]
fn a_missing_query_is_an_error() {
    let built = Config::build(&args(&["minigrep"]), false);
    let error = built.clone().unwrap_err();
    assert_eq!(error, GrepError::MissingArgument(Argument::Query));
    assert_eq!(error.message(), "Didn't get a query string");
    assert_eq!(error.report(), "Problem parsing arguments: Didn't get a query string");
    assert!(error.report().contains("Didn't get a query string"));
    assert_eq!(exit_code(&built), 1);
}

#[test]
fn a_missing_query_is_an_error_whatever_the_toggle() {
    let built = Config::build(&args(&["minigrep"]), true);
    assert_eq!(built, Err(GrepError::MissingArgument(Argument::Query)));
    assert_eq!(exit_code(&built), 1);
}

#[test]
fn no_arguments_at_all_miss_the_query() {
    let built = Config::build(&args(&[]), false);
    assert_eq!(built, Err(GrepError::MissingArgument(Argument::Query)));
}

#[test]
fn a_missing_path_is_an_error() {
    let built = Config::build(&args(&["minigrep", "duct"]), false);
    let error = built.clone().unwrap_err();
    assert_eq!(error, GrepError::MissingArgument(Argument::Path));
    assert_eq!(error.message(), "Didn't get a file name");
    assert_eq!(error.report(), "Problem parsing arguments: Didn't get a file name");
    assert_eq!(exit_code(&built), 1);
}

#[test]
fn an_io_error_is_an_application_error() {
    let cause = "No such file or directory (os error 2)";
    let error = GrepError::IoError(cause.to_string());
    assert_eq!(error.message(), cause);
    assert_eq!(error.report(), "Application error: No such file or directory (os error 2)");
    let result: Result<(), GrepError> = Err(error);
    assert_eq!(exit_code(&result), 1);
}

#[test]
fn success_exits_with_zero() {
    let result: Result<(), GrepError> = Ok(());
    assert_eq!(exit_code(&result), 0);
}
