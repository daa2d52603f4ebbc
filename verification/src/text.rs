//! The text of a destruction report and of the values shown inside it.

use crate::observer::State;
use vstd::prelude::*;

verus! {

/// The flag as a report shows it.
pub open spec fn state_text(state: State) -> Seq<char> {
    match state {
        State::INVALID => "INVALID"@,
        State::Valid => "Valid"@,
    }
}

/// One decimal digit.
pub open spec fn digit_text(d: nat) -> Seq<char>
    recommends
        d < 10,
{
    if d == 0 {
        "0"@
    } else if d == 1 {
        "1"@
    } else if d == 2 {
        "2"@
    } else if d == 3 {
        "3"@
    } else if d == 4 {
        "4"@
    } else if d == 5 {
        "5"@
    } else if d == 6 {
        "6"@
    } else if d == 7 {
        "7"@
    } else if d == 8 {
        "8"@
    } else {
        "9"@
    }
}

/// A natural number in decimal, without leading zeros.
pub open spec fn decimal_text(n: nat) -> Seq<char>
    decreases n,
{
    if n < 10 {
        digit_text(n)
    } else {
        decimal_text(n / 10) + digit_text(n % 10)
    }
}

/// An integer in decimal, with a minus sign in front of a negative one.
pub open spec fn int_text(n: int) -> Seq<char> {
    if n < 0 {
        "-"@ + decimal_text((-n) as nat)
    } else {
        decimal_text(n as nat)
    }
}

/// What `Debug` writes for a string slice: the text between double quotes,
/// with the characters that cannot stand for themselves there written as
/// escapes.
pub uninterp spec fn str_debug(s: Seq<char>) -> Seq<char>;

/// An observer as it is shown inside another value: its name in quotes, its
/// inner value and its flag.
pub open spec fn observer_text(quoted_name: Seq<char>, inner: Seq<char>, state: State) -> Seq<
    char,
> {
    "PrintOnDrop("@ + quoted_name + ", "@ + inner + ", "@ + state_text(state) + ")"@
}

/// The report of one destruction: the observer's bare name, its inner value
/// and its flag.
pub open spec fn drop_line(name: Seq<char>, inner: Seq<char>, state: State) -> Seq<char> {
    "drop PrintOnDrop("@ + name + ", "@ + inner + ", "@ + state_text(state) + ")"@
}

/// The flag's name.
pub fn state_name(state: State) -> (name: &'static str)
    ensures
        name@ == state_text(state),
{
    match state {
        State::INVALID => "INVALID",
        State::Valid => "Valid",
    }
}

fn digit_name(d: u64) -> (name: &'static str)
    requires
        d < 10,
    ensures
        name@ == digit_text(d as nat),
{
    if d == 0 {
        "0"
    } else if d == 1 {
        "1"
    } else if d == 2 {
        "2"
    } else if d == 3 {
        "3"
    } else if d == 4 {
        "4"
    } else if d == 5 {
        "5"
    } else if d == 6 {
        "6"
    } else if d == 7 {
        "7"
    } else if d == 8 {
        "8"
    } else {
        "9"
    }
}

fn push_decimal(text: &mut String, n: u64)
    ensures
        final(text)@ == old(text)@ + decimal_text(n as nat),
    decreases n,
{
    if n >= 10 {
        push_decimal(text, n / 10);
    }
    text.append(digit_name(n % 10));
}

/// Writes `n` in decimal.
pub fn write_i32(n: i32) -> (text: String)
    ensures
        text@ == int_text(n as int),
{
    let mut text = String::new();
    let wide: i64 = n as i64;
    if wide < 0 {
        text.append("-");
        push_decimal(&mut text, (-wide) as u64);
    } else {
        push_decimal(&mut text, wide as u64);
    }
    text
}

/// Calls `Debug::fmt` of `str` through `format!("{:?}", ..)`. The text that
/// comes back is taken on trust to be `str_debug` of the argument: it depends
/// on the characters of `s` and on nothing else.
#[verifier::external_body]
pub(crate) fn quote(s: &str) -> (text: String)
    ensures
        text@ == str_debug(s@),
{
    format!("{:?}", s)
}

/// Writes an observer as it is shown inside another value.
pub fn write_observer(quoted_name: &str, inner: &str, state: State) -> (text: String)
    ensures
        text@ == observer_text(quoted_name@, inner@, state),
{
    let mut text = String::from_str("PrintOnDrop(");
    text.append(quoted_name);
    text.append(", ");
    text.append(inner);
    text.append(", ");
    text.append(state_name(state));
    text.append(")");
    text
}

/// Writes the report of one destruction.
pub fn write_drop_line(name: &str, inner: &str, state: State) -> (line: String)
    ensures
        line@ == drop_line(name@, inner@, state),
{
    let mut line = String::from_str("drop PrintOnDrop(");
    line.append(name);
    line.append(", ");
    line.append(inner);
    line.append(", ");
    line.append(state_name(state));
    line.append(")");
    line
}

} // verus!
