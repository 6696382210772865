//! The line that a run prints.

use vstd::prelude::*;
use vstd::string::*;

use crate::decode::{conditions_outcome, ConditionsModel, CurrentWeatherConditions};
use crate::error::ProgramError;
use crate::icons::{glyph, icon_named, icon_to_glyph};
use crate::temperature::{celsius, celsius_degrees, rounded, whole_degrees};
use crate::text::joined;

verus! {

/// The character for a digit.
pub open spec fn digit(d: nat) -> char {
    if d == 0 {
        '0'
    } else if d == 1 {
        '1'
    } else if d == 2 {
        '2'
    } else if d == 3 {
        '3'
    } else if d == 4 {
        '4'
    } else if d == 5 {
        '5'
    } else if d == 6 {
        '6'
    } else if d == 7 {
        '7'
    } else if d == 8 {
        '8'
    } else {
        '9'
    }
}

/// A natural number in decimal digits, without leading zeros.
pub open spec fn digits(n: nat) -> Seq<char>
    decreases n,
{
    if n < 10 {
        seq![digit(n)]
    } else {
        digits(n / 10).push(digit(n % 10))
    }
}

/// A whole number in decimal digits, with a minus sign before a negative one.
pub open spec fn decimal(n: int) -> Seq<char> {
    if n < 0 {
        seq!['-'] + digits((-n) as nat)
    } else {
        digits(n as nat)
    }
}

/// The line for current conditions: with a temperature, the degrees Celsius
/// and the degrees Fahrenheit, each with a degree sign, a slash between
/// them, then the icon's glyph; without one, the glyph alone.
pub open spec fn summary_of(conditions: ConditionsModel) -> Seq<char> {
    let emoji = glyph(icon_named(conditions.icon));
    match conditions.temperature {
        Some(bits) => decimal(celsius_degrees(bits)) + "\u{B0}/"@ + decimal(whole_degrees(bits))
            + "\u{B0}"@ + emoji,
        None => emoji,
    }
}

/// The line for a failed run.
pub open spec fn failure_of(message: Seq<char>) -> Seq<char> {
    "Something went wrong: "@ + message
}

/// A line to print, and the stream that it goes to.
#[derive(Debug, PartialEq, Eq)]
pub enum Line {
    /// For standard output.
    Output(String),
    /// For standard error.
    Error(String),
}

/// A line as mathematics: its text, as `Ok` for standard output and as `Err`
/// for standard error.
pub open spec fn line_outcome(line: Line) -> Result<Seq<char>, Seq<char>> {
    match line {
        Line::Output(text) => Ok(text@),
        Line::Error(text) => Err(text@),
    }
}

/// The line for the outcome of a run: the summary of the conditions for
/// standard output, or the failure for standard error.
pub open spec fn report_of(outcome: Result<ConditionsModel, Seq<char>>) -> Result<
    Seq<char>,
    Seq<char>,
> {
    match outcome {
        Ok(conditions) => Ok(summary_of(conditions)),
        Err(message) => Err(failure_of(message)),
    }
}

/// The text of one digit.
fn digit_text(d: u64) -> (text: &'static str)
    requires
        d < 10,
    ensures
        text@ == seq![digit(d as nat)],
{
    proof {
        reveal_strlit("0");
        reveal_strlit("1");
        reveal_strlit("2");
        reveal_strlit("3");
        reveal_strlit("4");
        reveal_strlit("5");
        reveal_strlit("6");
        reveal_strlit("7");
        reveal_strlit("8");
        reveal_strlit("9");
    }
    let text = if d == 0 {
        "0"
    } else if d == 1 {
        "1"
    } else if d == 2 {
        "2"
    } else if d == 3 {
        "3"
    } else if d == 4 {
        "4"
    } else if d == 5 {
        "5"
    } else if d == 6 {
        "6"
    } else if d == 7 {
        "7"
    } else if d == 8 {
        "8"
    } else {
        "9"
    };
    assert(text@ =~= seq![digit(d as nat)]);
    text
}

/// A natural number in decimal digits.
fn digits_text(n: u64) -> (text: String)
    ensures
        text@ == digits(n as nat),
    decreases n,
{
    if n < 10 {
        String::from_str(digit_text(n))
    } else {
        let mut text = digits_text(n / 10);
        text.append(digit_text(n % 10));
        assert(text@ =~= digits(n as nat));
        text
    }
}

/// A whole number in decimal digits.
pub fn decimal_text(n: i32) -> (text: String)
    ensures
        text@ == decimal(n as int),
{
    if n < 0 {
        proof {
            reveal_strlit("-");
        }
        let magnitude: u64 = (-(n as i64)) as u64;
        let text = joined("-", digits_text(magnitude).as_str());
        assert(text@ =~= decimal(n as int));
        text
    } else {
        digits_text(n as u64)
    }
}

/// The line to print for current conditions.
pub fn summary(conditions: &CurrentWeatherConditions) -> (line: String)
    ensures
        line@ == summary_of(conditions@),
{
    let emoji = icon_to_glyph(conditions.icon.as_str());
    match conditions.temperature {
        Some(bits) => {
            let mut line = decimal_text(celsius(bits));
            line.append("\u{B0}/");
            line.append(decimal_text(rounded(bits)).as_str());
            line.append("\u{B0}");
            line.append(emoji.as_str());
            line
        },
        None => emoji,
    }
}

/// The line to print for a failed run.
pub fn failure_line(error: &ProgramError) -> (line: String)
    ensures
        line@ == failure_of(error@),
{
    joined("Something went wrong: ", error.message.as_str())
}

/// The line to print for the outcome of a run, and where to print it.
pub fn report(outcome: &Result<CurrentWeatherConditions, ProgramError>) -> (line: Line)
    ensures
        line_outcome(line) == report_of(conditions_outcome(*outcome)),
{
    match outcome {
        Ok(conditions) => Line::Output(summary(conditions)),
        Err(error) => Line::Error(failure_line(error)),
    }
}

} // verus!
