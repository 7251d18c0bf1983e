//! How a reported line is written out: its ordinal in decimal, a colon and a
//! space, then the line as it was read.

use vstd::prelude::*;
use vstd::string::*;

verus! {

/// The ten decimal digits, in order.
pub open spec fn digits() -> Seq<char> {
    seq!['0', '1', '2', '3', '4', '5', '6', '7', '8', '9']
}

/// The decimal numeral of `n`: no sign, no leading zero but for zero itself.
pub open spec fn decimal(n: nat) -> Seq<char>
    decreases n,
{
    if n < 10 {
        seq![digits()[n as int]]
    } else {
        decimal(n / 10).push(digits()[(n % 10) as int])
    }
}

/// The output line for the line `line` at position `ordinal`.
pub open spec fn rendered(ordinal: nat, line: Seq<char>) -> Seq<char> {
    decimal(ordinal) + seq![':', ' '] + line
}

/// The decimal numeral of `n`.
pub fn decimal_string(n: usize) -> (text: String)
    ensures
        text@ == decimal(n as nat),
    decreases n,
{
    let unit: usize = n % 10;
    proof {
        reveal_strlit("0123456789");
    }
    let digit = "0123456789".substring_ascii(unit, unit + 1);
    if n < 10 {
        String::from_str(digit)
    } else {
        let mut text = decimal_string(n / 10);
        text.append(digit);
        text
    }
}

/// The output line for the line `line` at position `ordinal`.
pub fn render(ordinal: usize, line: &str) -> (text: String)
    ensures
        text@ == rendered(ordinal as nat, line@),
{
    let mut text = decimal_string(ordinal);
    proof {
        reveal_strlit(": ");
    }
    text.append(": ");
    text.append(line);
    text
}

/// An output line ends with the line as it was read: nothing of it is
/// changed or left out.
pub proof fn lemma_rendered_keeps_line(ordinal: nat, line: Seq<char>)
    ensures
        rendered(ordinal, line).len() == decimal(ordinal).len() + 2 + line.len(),
        rendered(ordinal, line).skip(decimal(ordinal).len() as int + 2) == line,
{
}

} // verus!
