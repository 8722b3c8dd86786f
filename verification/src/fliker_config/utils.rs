//! Numbers that the catalog writes as text.

use vstd::prelude::*;

verus! {

/// The text was no decimal number that fits 32 bits.
#[derive(Clone, Copy, Debug, PartialEq, Eq, Structural)]
pub struct InvalidNumber;

/// The value of a decimal digit.
pub open spec fn digit_value(c: char) -> Option<int> {
    if '0' <= c && c <= '9' {
        Some(c as int - '0' as int)
    } else {
        None
    }
}

/// The value of a run of one or more decimal digits.
pub open spec fn digits_value(s: Seq<char>) -> Option<int>
    decreases s.len(),
{
    if s.len() == 0 {
        None
    } else if s.len() == 1 {
        digit_value(s[0])
    } else {
        match (digits_value(s.drop_last()), digit_value(s.last())) {
            (Some(high), Some(low)) => Some(10 * high + low),
            _ => None,
        }
    }
}

/// The value of an optional sign followed by one or more decimal digits.
pub open spec fn decimal_value(s: Seq<char>) -> Option<int> {
    if s.len() > 0 && s[0] == '-' {
        match digits_value(s.subrange(1, s.len() as int)) {
            Some(v) => Some(-v),
            None => None,
        }
    } else if s.len() > 0 && s[0] == '+' {
        digits_value(s.subrange(1, s.len() as int))
    } else {
        digits_value(s)
    }
}

/// The number that a text stands for, where it is a signed decimal number
/// within the range of `i32`.
pub open spec fn decimal_i32(s: Seq<char>) -> Option<i32> {
    match decimal_value(s) {
        Some(v) => if i32::MIN <= v <= i32::MAX {
            Some(v as i32)
        } else {
            None
        },
        None => None,
    }
}

/// `str::parse::<i32>`, with its error dropped. Per the documentation of
/// `i32::from_str`, the text must be an optional `+` or `-` followed by
/// digits only, and the call fails on an empty text, on any other character
/// and on a value outside the range of `i32`.
#[verifier::external_body]
fn parse_i32(s: &str) -> (number: Option<i32>)
    ensures
        number == decimal_i32(s@),
{
    s.parse::<i32>().ok()
}

/// Reads a 32-bit number that is written as decimal text.
pub fn string_to_i32(s: &str) -> (number: Result<i32, InvalidNumber>)
    ensures
        match decimal_i32(s@) {
            Some(v) => number == Ok::<i32, InvalidNumber>(v),
            None => number == Err::<i32, InvalidNumber>(InvalidNumber),
        },
{
    match parse_i32(s) {
        Some(v) => Ok(v),
        None => Err(InvalidNumber),
    }
}

} // verus!
