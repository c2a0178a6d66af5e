//! Numbers as they are written.

use vstd::prelude::*;

verus! {

/// The value of a decimal digit; nothing for any other character.
pub open spec fn digit_value(c: char) -> Option<nat> {
    if c == '0' {
        Some(0)
    } else if c == '1' {
        Some(1)
    } else if c == '2' {
        Some(2)
    } else if c == '3' {
        Some(3)
    } else if c == '4' {
        Some(4)
    } else if c == '5' {
        Some(5)
    } else if c == '6' {
        Some(6)
    } else if c == '7' {
        Some(7)
    } else if c == '8' {
        Some(8)
    } else if c == '9' {
        Some(9)
    } else {
        None
    }
}

/// The number that a run of decimal digits writes; nothing for the empty
/// run and for a run that holds anything but digits.
pub open spec fn digits_value(text: Seq<char>) -> Option<nat>
    decreases text.len(),
{
    if text.len() == 0 {
        None
    } else {
        match digit_value(text.last()) {
            None => None,
            Some(digit) => if text.len() == 1 {
                Some(digit)
            } else {
                match digits_value(text.drop_last()) {
                    None => None,
                    Some(before) => Some(before * 10 + digit),
                }
            },
        }
    }
}

/// The natural number that `text` writes: digits, with or without a plus
/// sign in front.
pub open spec fn written_natural(text: Seq<char>) -> Option<nat> {
    if text.len() > 0 && text[0] == '+' {
        digits_value(text.skip(1))
    } else {
        digits_value(text)
    }
}

/// The integer that `text` writes: digits, with or without a sign in front.
pub open spec fn written_integer(text: Seq<char>) -> Option<int> {
    if text.len() > 0 && text[0] == '-' {
        match digits_value(text.skip(1)) {
            Some(value) => Some(-(value as int)),
            None => None,
        }
    } else {
        match written_natural(text) {
            Some(value) => Some(value as int),
            None => None,
        }
    }
}

/// The integer that `text` writes, where it fits into 32 bits.
pub open spec fn written_i32(text: Seq<char>) -> Option<i32> {
    match written_integer(text) {
        Some(value) => if i32::MIN <= value <= i32::MAX {
            Some(value as i32)
        } else {
            None
        },
        None => None,
    }
}

/// The natural number that `text` writes, where it fits into a `usize`.
pub open spec fn written_usize(text: Seq<char>) -> Option<usize> {
    match written_natural(text) {
        Some(value) => if value <= usize::MAX {
            Some(value as usize)
        } else {
            None
        },
        None => None,
    }
}

/// `str::parse::<i32>`: the text has to be decimal digits with or without
/// a sign in front, and the number has to fit; anything else is refused.
#[verifier::external_body]
pub(crate) fn parse_i32(text: &str) -> (parsed: Option<i32>)
    ensures
        parsed == written_i32(text@),
{
    text.parse::<i32>().ok()
}

/// `str::parse::<usize>`: the text has to be decimal digits with or without
/// a plus sign in front, and the number has to fit; anything else is
/// refused.
#[verifier::external_body]
pub(crate) fn parse_usize(text: &str) -> (parsed: Option<usize>)
    ensures
        parsed == written_usize(text@),
{
    text.parse::<usize>().ok()
}

} // verus!
