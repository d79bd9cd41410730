//! Numeric literals. Arbitrary-precision decimal arithmetic is left to the
//! `bigdecimal` crate; a `Number` holds what the analysis reads of a value.

use vstd::prelude::*;
use bigdecimal::BigDecimal;
use bigdecimal::ToPrimitive;
use std::str::FromStr;
use vstd::utf8::encode_utf8;

verus! {

/// The most bytes that may follow the exponent mark of a literal: enough
/// for a sign and five digits. It keeps powers of ten within what memory
/// holds.
pub const MAX_EXPONENT_BYTES: usize = 6;

/// Whether the byte is `e` or `E`.
pub open spec fn is_exponent_mark(byte: u8) -> bool {
    byte == 0x65u8 || byte == 0x45u8
}

/// Whether at most `MAX_EXPONENT_BYTES` bytes follow any exponent mark of
/// the text.
pub open spec fn has_short_exponent(text: Seq<char>) -> bool {
    let bytes = encode_utf8(text);
    forall|i: int|
        0 <= i < bytes.len() - MAX_EXPONENT_BYTES - 1 ==> !is_exponent_mark(#[trigger] bytes[i])
}

/// Tests whether at most `MAX_EXPONENT_BYTES` bytes follow any exponent mark
/// of the text.
pub fn exponent_is_short(text: &str) -> (short: bool)
    ensures
        short == has_short_exponent(text@),
{
    let bytes = text.as_bytes();
    if bytes.len() <= MAX_EXPONENT_BYTES + 1 {
        return true;
    }
    let end: usize = bytes.len() - MAX_EXPONENT_BYTES - 1;
    let mut i: usize = 0;
    while i < end
        invariant
            i <= end,
            end == bytes@.len() - MAX_EXPONENT_BYTES - 1,
            bytes@ == encode_utf8(text@),
            forall|j: int| 0 <= j < i ==> !is_exponent_mark(#[trigger] bytes@[j]),
        decreases end - i,
    {
        if bytes[i] == 0x65u8 || bytes[i] == 0x45u8 {
            return false;
        }
        i += 1;
    }
    true
}

/// Whether `BigDecimal::from_str` reads the text as a decimal number.
pub uninterp spec fn is_decimal_literal(text: Seq<char>) -> bool;

/// Whether the decimal number that `BigDecimal::from_str` reads from the
/// text has no fractional part, as `BigDecimal::is_integer` decides it.
pub uninterp spec fn literal_is_integer(text: Seq<char>) -> bool;

/// The decimal number that `BigDecimal::from_str` reads from the text, as
/// `ToPrimitive::to_i64` converts it to a 64-bit signed integer.
pub uninterp spec fn literal_as_i64(text: Seq<char>) -> Option<i64>;

/// Calls `BigDecimal::from_str` and reports whether it returned `Ok`. Not
/// proved: the result is only named, by `is_decimal_literal`. The exponent
/// has to be short, so that the scale of the number cannot overflow.
#[verifier::external_body]
fn parses_as_decimal(text: &str) -> (valid: bool)
    requires
        has_short_exponent(text@),
    ensures
        valid == is_decimal_literal(text@),
{
    BigDecimal::from_str(text).is_ok()
}

/// Calls `BigDecimal::is_integer` on the number that `BigDecimal::from_str`
/// reads from the text. Not proved: the result is only named, by
/// `literal_is_integer`. The exponent has to be short: the call raises ten
/// to the power of the scale.
#[verifier::external_body]
fn decimal_is_integer(text: &str) -> (whole: bool)
    requires
        has_short_exponent(text@),
        is_decimal_literal(text@),
    ensures
        whole == literal_is_integer(text@),
{
    match BigDecimal::from_str(text) {
        Ok(number) => number.is_integer(),
        Err(_) => false,
    }
}

/// Calls `ToPrimitive::to_i64` on the number that `BigDecimal::from_str`
/// reads from the text. Not proved: the result is only named, by
/// `literal_as_i64`. The exponent has to be short: the call raises ten to
/// the power of the scale.
#[verifier::external_body]
fn decimal_to_i64(text: &str) -> (value: Option<i64>)
    requires
        has_short_exponent(text@),
        is_decimal_literal(text@),
    ensures
        value == literal_as_i64(text@),
{
    match BigDecimal::from_str(text) {
        Ok(number) => number.to_i64(),
        Err(_) => None,
    }
}

/// A numeric literal: either a whole number within the 64-bit signed range,
/// held as that integer, or any other decimal number (one with a fractional
/// part, or beyond that range), held by its exact decimal text.
#[derive(Debug, PartialEq, Eq, Clone)]
pub enum Number {
    Whole(i64),
    Decimal(String),
}

impl Number {
    /// Whether the text is a literal of a number: decimal text with a short
    /// exponent, if it has one.
    pub open spec fn is_literal(text: Seq<char>) -> bool {
        has_short_exponent(text) && is_decimal_literal(text)
    }

    /// The number of a literal, given whether its value has no fractional
    /// part and what it is as a 64-bit signed integer: that integer where
    /// the value is whole and within the range, else the text.
    pub open spec fn of_parts(text: String, is_integer: bool, as_i64: Option<i64>) -> Number {
        if is_integer {
            match as_i64 {
                Some(value) => Number::Whole(value),
                None => Number::Decimal(text),
            }
        } else {
            Number::Decimal(text)
        }
    }

    /// The number that a literal denotes.
    pub open spec fn of_literal(text: String) -> Number {
        Number::of_parts(text, literal_is_integer(text@), literal_as_i64(text@))
    }

    /// A `Decimal` holds the literal of a value that is no whole number of
    /// the 64-bit range.
    pub open spec fn well_formed(self) -> bool {
        match self {
            Number::Whole(_) => true,
            Number::Decimal(text) => Number::is_literal(text@) && Number::of_literal(text)
                == self,
        }
    }

    /// The whole number within the 64-bit signed range that this is, if any.
    pub open spec fn spec_whole(self) -> Option<i64> {
        match self {
            Number::Whole(value) => Some(value),
            Number::Decimal(_) => None,
        }
    }

    pub fn whole(&self) -> (value: Option<i64>)
        ensures
            value == self.spec_whole(),
    {
        match self {
            Number::Whole(value) => Some(*value),
            Number::Decimal(_) => None,
        }
    }

    pub fn from_i64(value: i64) -> (number: Number)
        ensures
            number == Number::Whole(value),
            number.well_formed(),
    {
        Number::Whole(value)
    }

    /// Whether `text` is the literal of a number.
    pub fn is_valid_literal(text: &str) -> (valid: bool)
        ensures
            valid == Number::is_literal(text@),
    {
        exponent_is_short(text) && parses_as_decimal(text)
    }

    /// The number of a literal, given whether its value has no fractional
    /// part and what it is as a 64-bit signed integer.
    pub fn from_parts(text: String, is_integer: bool, as_i64: Option<i64>) -> (number: Number)
        ensures
            number == Number::of_parts(text, is_integer, as_i64),
    {
        if is_integer {
            match as_i64 {
                Some(value) => Number::Whole(value),
                None => Number::Decimal(text),
            }
        } else {
            Number::Decimal(text)
        }
    }

    /// The number that a literal denotes; the text itself is kept where the
    /// value is not a whole number of the 64-bit range.
    pub fn from_literal(text: String) -> (number: Number)
        requires
            Number::is_literal(text@),
        ensures
            number == Number::of_literal(text),
            number.well_formed(),
    {
        let is_integer = decimal_is_integer(text.as_str());
        let as_i64 = decimal_to_i64(text.as_str());
        Number::from_parts(text, is_integer, as_i64)
    }

    /// Reads a literal: `None` where the text is not the literal of a
    /// number.
    pub fn parse(text: String) -> (number: Option<Number>)
        ensures
            number == if Number::is_literal(text@) {
                Some(Number::of_literal(text))
            } else {
                None
            },
            number matches Some(n) ==> n.well_formed(),
    {
        if Number::is_valid_literal(text.as_str()) {
            Some(Number::from_literal(text))
        } else {
            None
        }
    }
}

} // verus!
