//! Decimal numbers of 16 bits, as they are written on a command line.

use vstd::prelude::*;
use vstd::string::StrSliceExecFns;

verus! {

/// Whether a character is one of `0` to `9`.
pub open spec fn is_digit(c: char) -> bool {
    '0' <= c <= '9'
}

/// The value of a digit.
pub open spec fn digit_value(c: char) -> nat
    recommends
        is_digit(c),
{
    (c as u32 - '0' as u32) as nat
}

/// Whether every character is a digit.
pub open spec fn all_digits(digits: Seq<char>) -> bool {
    forall|i: int| 0 <= i < digits.len() ==> is_digit(#[trigger] digits[i])
}

/// The number that a string of digits denotes in base ten.
pub open spec fn decimal_value(digits: Seq<char>) -> nat
    recommends
        all_digits(digits),
    decreases digits.len(),
{
    if digits.len() == 0 {
        0
    } else {
        decimal_value(digits.drop_last()) * 10 + digit_value(digits.last())
    }
}

/// What is left of a number once its optional `+` sign is taken off.
pub open spec fn unsigned_part(text: Seq<char>) -> Seq<char> {
    if text.len() > 0 && text[0] == '+' {
        text.subrange(1, text.len() as int)
    } else {
        text
    }
}

/// The 16-bit number that a text denotes: an optional `+`, then at least one
/// digit and nothing but digits, with a value of at most 65535. Any other
/// text denotes none.
pub open spec fn parse_decimal(text: Seq<char>) -> Option<u16> {
    let digits = unsigned_part(text);
    if digits.len() > 0 && all_digits(digits) && decimal_value(digits) <= u16::MAX {
        Some(decimal_value(digits) as u16)
    } else {
        None
    }
}

/// The value of a string of digits is no less than that of any of its
/// beginnings.
pub proof fn lemma_decimal_value_grows(digits: Seq<char>, shorter: int)
    requires
        0 <= shorter <= digits.len(),
    ensures
        decimal_value(digits.subrange(0, shorter)) <= decimal_value(digits),
    decreases digits.len() - shorter,
{
    if shorter == digits.len() {
        assert(digits.subrange(0, shorter) =~= digits);
    } else {
        lemma_decimal_value_grows(digits, shorter + 1);
        assert(digits.subrange(0, shorter + 1).drop_last() =~= digits.subrange(0, shorter));
    }
}

/// Reads a 16-bit number written in base ten.
///
/// Accepts an optional `+` followed by digits only, as long as the value is
/// at most 65535; anything else is not a number.
pub fn parse_number(text: &str) -> (result: Result<u16, &'static str>)
    ensures
        match parse_decimal(text@) {
            Some(number) => result == Ok::<u16, &'static str>(number),
            None => result == Err::<u16, &'static str>("not a number"),
        },
{
    let length: usize = text.unicode_len();
    let start: usize = if length > 0 && text.get_char(0) == '+' {
        1
    } else {
        0
    };
    if start == length {
        return Err("not a number");
    }
    let ghost digits = unsigned_part(text@);
    assert(digits =~= text@.subrange(start as int, length as int));
    let mut value: u32 = 0;
    let mut index: usize = start;
    while index < length
        invariant
            start <= index <= length,
            length == text@.len(),
            digits == text@.subrange(start as int, length as int),
            digits == unsigned_part(text@),
            all_digits(digits.subrange(0, index - start)),
            value == decimal_value(digits.subrange(0, index - start)),
            value <= u16::MAX,
        decreases length - index,
    {
        let c: char = text.get_char(index);
        assert(c == digits[index - start]);
        if !('0' <= c && c <= '9') {
            assert(!is_digit(digits[index - start]));
            return Err("not a number");
        }
        let digit: u32 = c as u32 - '0' as u32;
        let ghost longer = digits.subrange(0, index - start + 1);
        assert(longer.drop_last() =~= digits.subrange(0, index - start));
        assert(longer.last() == c);
        assert(decimal_value(longer) == value * 10 + digit);
        value = value * 10 + digit;
        if value > 65535 {
            proof {
                lemma_decimal_value_grows(digits, index - start + 1);
            }
            return Err("not a number");
        }
        index = index + 1;
    }
    assert(digits.subrange(0, index - start) =~= digits);
    Ok(value as u16)
}

} // verus!
