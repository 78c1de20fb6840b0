//! Classification and decoding of single ASCII numeral digits.
//!
//! Every classifying function answers with one byte: a value below [`INVALID`]
//! is a result (an offset, or a digit's value), and the four values from
//! [`INVALID`] up are sentinels for the ways a byte can fail to be a digit.
//! The tagged enums ([`AsciiDigit`], [`Digit`], ...) are a thin layer over
//! the same classification that also names `'_'` and `'.'`.

use vstd::prelude::*;

use crate::{ascii, utf32};
use core::ops::RangeInclusive;
use vstd::std_specs::range::RangeInclusiveView;

verus! {

/// Marker for the two character types that ranges are written in.
pub trait Ascii {}

impl Ascii for ascii {}

impl Ascii for utf32 {}

/// An inclusive range `start..=end` of ASCII characters.
#[derive(Clone, Copy, Debug, Hash, PartialEq, Eq)]
pub struct AsciiRange<I: Ascii> {
    pub start: I,
    pub end: I,
}

impl<I: Ascii> AsciiRange<I> {
    pub fn new(start: I, end: I) -> (r: Self)
        ensures
            r.start == start,
            r.end == end,
    {
        Self { start, end }
    }
}

/// A numeral system with a fixed set of digit bytes.
#[derive(Clone, Copy, Debug, Hash, PartialEq, Eq, Structural)]
pub enum Base {
    Binary,
    Octal,
    Decimal,
    Hexadecimal,
}

impl Default for Base {
    fn default() -> (r: Self)
        ensures
            r == Base::Decimal,
    {
        Base::Decimal
    }
}

// bounds of custom bases and the unified alphabet
impl Base {
    /// The smallest radix a custom base may have.
    pub const MIN: u8 = 2;
    /// The largest radix a custom base may have: ten digits and 26 letters.
    pub const MAX: u8 = 36;

    /// `'0'`
    pub const DIGIT_ASCII_START: u8 = 0x30;
    /// `'9'`
    pub const DIGIT_ASCII_END: u8 = 0x39;
    /// `'A'`
    pub const UPPERCASE_ASCII_START: u8 = 0x41;
    /// `'Z'`
    pub const UPPERCASE_ASCII_END: u8 = 0x5a;
    /// `'a'`
    pub const LOWERCASE_ASCII_START: u8 = 0x61;
    /// `'z'`
    pub const LOWERCASE_ASCII_END: u8 = 0x7a;

    pub const DIGIT_START: utf32 = '0';
    pub const DIGIT_END: utf32 = '9';
    pub const UPPERCASE_START: utf32 = 'A';
    pub const UPPERCASE_END: utf32 = 'Z';
    pub const LOWERCASE_START: utf32 = 'a';
    pub const LOWERCASE_END: utf32 = 'z';

    /// Subtracted from a decimal digit byte to give its value.
    pub const DIGIT_ASCII_OFFSET: u8 = Self::DIGIT_ASCII_START;
    /// Subtracted from an uppercase letter to give its value (`'A'` is 10).
    pub const UPPERCASE_ASCII_OFFSET: u8 = Self::UPPERCASE_ASCII_START - 10;
    /// Subtracted from a lowercase letter to give its value (`'a'` is 10).
    pub const LOWERCASE_ASCII_OFFSET: u8 = Self::LOWERCASE_ASCII_START - 10;
}

// binary
impl Base {
    pub const BINARY_DIGIT_ASCII_START: u8 = Self::DIGIT_ASCII_START;
    pub const BINARY_DIGIT_ASCII_END: u8 = Self::DIGIT_ASCII_START + 1;
    pub const BINARY_DIGIT_OUT_OF_RANGE_ASCII_START: u8 = Self::BINARY_DIGIT_ASCII_END + 1;
    pub const BINARY_DIGIT_OUT_OF_RANGE_ASCII_END: u8 = Self::DIGIT_ASCII_END;
    pub const BINARY_ASCII_OFFSET: u8 = Self::BINARY_DIGIT_ASCII_START;
    pub const BINARY_DIGIT_START: utf32 = '0';
    pub const BINARY_DIGIT_END: utf32 = '1';
}

// octal
impl Base {
    pub const OCTAL_DIGIT_ASCII_START: u8 = Self::DIGIT_ASCII_START;
    pub const OCTAL_DIGIT_ASCII_END: u8 = Self::DIGIT_ASCII_START + 7;
    pub const OCTAL_DIGIT_OUT_OF_RANGE_ASCII_START: u8 = Self::OCTAL_DIGIT_ASCII_END + 1;
    pub const OCTAL_DIGIT_OUT_OF_RANGE_ASCII_END: u8 = Self::DIGIT_ASCII_END;
    pub const OCTAL_ASCII_OFFSET: u8 = Self::OCTAL_DIGIT_ASCII_START;
    pub const OCTAL_DIGIT_START: utf32 = '0';
    pub const OCTAL_DIGIT_END: utf32 = '7';
}

// decimal
impl Base {
    pub const DECIMAL_DIGIT_ASCII_START: u8 = Self::DIGIT_ASCII_START;
    pub const DECIMAL_DIGIT_ASCII_END: u8 = Self::DIGIT_ASCII_END;
    pub const DECIMAL_ASCII_OFFSET: u8 = Self::DECIMAL_DIGIT_ASCII_START;
    pub const DECIMAL_DIGIT_START: utf32 = '0';
    pub const DECIMAL_DIGIT_END: utf32 = '9';
}

// hexadecimal
impl Base {
    pub const HEXADECIMAL_DIGIT_ASCII_START: u8 = Self::DIGIT_ASCII_START;
    pub const HEXADECIMAL_DIGIT_ASCII_END: u8 = Self::DIGIT_ASCII_END;
    pub const HEXADECIMAL_UPPERCASE_ASCII_START: u8 = Self::UPPERCASE_ASCII_START;
    pub const HEXADECIMAL_UPPERCASE_ASCII_END: u8 = Self::UPPERCASE_ASCII_START + 5;
    pub const HEXADECIMAL_LOWERCASE_ASCII_START: u8 = Self::LOWERCASE_ASCII_START;
    pub const HEXADECIMAL_LOWERCASE_ASCII_END: u8 = Self::LOWERCASE_ASCII_START + 5;
    pub const HEXADECIMAL_UPPERCASE_OUT_OF_RANGE_ASCII_START: u8 =
        Self::HEXADECIMAL_UPPERCASE_ASCII_END + 1;
    pub const HEXADECIMAL_UPPERCASE_OUT_OF_RANGE_ASCII_END: u8 = Self::UPPERCASE_ASCII_END;
    pub const HEXADECIMAL_LOWERCASE_OUT_OF_RANGE_ASCII_START: u8 =
        Self::HEXADECIMAL_LOWERCASE_ASCII_END + 1;
    pub const HEXADECIMAL_LOWERCASE_OUT_OF_RANGE_ASCII_END: u8 = Self::LOWERCASE_ASCII_END;
    pub const HEXADECIMAL_DIGIT_ASCII_OFFSET: u8 = Self::DIGIT_ASCII_OFFSET;
    pub const HEXADECIMAL_UPPERCASE_ASCII_OFFSET: u8 = Self::UPPERCASE_ASCII_OFFSET;
    pub const HEXADECIMAL_LOWERCASE_ASCII_OFFSET: u8 = Self::LOWERCASE_ASCII_OFFSET;
    pub const HEXADECIMAL_DIGIT_START: utf32 = '0';
    pub const HEXADECIMAL_DIGIT_END: utf32 = '9';
    pub const HEXADECIMAL_UPPERCASE_START: utf32 = 'A';
    pub const HEXADECIMAL_UPPERCASE_END: utf32 = 'F';
    pub const HEXADECIMAL_LOWERCASE_START: utf32 = 'a';
    pub const HEXADECIMAL_LOWERCASE_END: utf32 = 'f';
}

/// `'_'`, the digit-group separator.
pub const UNDERSCORE_ASCII: ascii = 0x5f;

/// `'.'`, the fractional point.
pub const DOT_ASCII: ascii = 0x2e;

/// An offset: the byte that, subtracted from a digit byte, gives its value.
pub type Offset = ascii;

/// An offset for a custom base.
pub type OffsetCustomBase = ascii;

/// A digit's value.
pub type DigitOffset = u8;

/// A digit's value in a custom base.
pub type DigitOffsetCustomBase = u8;

/// Not an alphanumeric byte at all.
pub const INVALID: Offset = 0b1000_0000;

/// Alphanumeric, but not a digit of the requested base.
pub const OUT_OF_RANGE: Offset = 0b1000_0001;

/// The requested custom base is below [`Base::MIN`].
pub const BASE_MIN: OffsetCustomBase = 0b1000_0010;

/// The requested custom base is above [`Base::MAX`].
pub const BASE_MAX: OffsetCustomBase = 0b1000_0011;

pub open spec fn is_digit_byte(c: u8) -> bool {
    Base::DIGIT_ASCII_START <= c <= Base::DIGIT_ASCII_END
}

pub open spec fn is_uppercase_byte(c: u8) -> bool {
    Base::UPPERCASE_ASCII_START <= c <= Base::UPPERCASE_ASCII_END
}

pub open spec fn is_lowercase_byte(c: u8) -> bool {
    Base::LOWERCASE_ASCII_START <= c <= Base::LOWERCASE_ASCII_END
}

pub open spec fn is_letter_byte(c: u8) -> bool {
    is_uppercase_byte(c) || is_lowercase_byte(c)
}

pub open spec fn is_alphanumerical_byte(c: u8) -> bool {
    is_digit_byte(c) || is_letter_byte(c)
}

/// The value of an alphanumeric byte in the 36-symbol alphabet `0-9`, `A-Z`,
/// letters case-insensitively: `'0'` is 0, `'9'` is 9, `'a'` and `'A'` are 10,
/// `'z'` and `'Z'` are 35.
pub open spec fn symbol_value(c: u8) -> int
    recommends
        is_alphanumerical_byte(c),
{
    if is_digit_byte(c) {
        c - Base::DIGIT_ASCII_START
    } else if is_uppercase_byte(c) {
        c - Base::UPPERCASE_ASCII_START + 10
    } else {
        c - Base::LOWERCASE_ASCII_START + 10
    }
}

/// Whether `c` is a digit of a base of radix `radix`.
pub open spec fn is_digit_of(c: u8, radix: int) -> bool {
    is_alphanumerical_byte(c) && symbol_value(c) < radix
}

/// Whether `c` is alphanumeric but not a digit of a base of radix `radix`.
pub open spec fn is_out_of_range_of(c: u8, radix: int) -> bool {
    is_alphanumerical_byte(c) && symbol_value(c) >= radix
}

/// What a classifying function returns for `c` in a base of radix `radix`:
/// the offset `c - value` for a digit of that base, `OUT_OF_RANGE` for any
/// other alphanumeric byte, `INVALID` for everything else.
pub open spec fn classified(c: u8, radix: int) -> u8 {
    if !is_alphanumerical_byte(c) {
        INVALID
    } else if symbol_value(c) >= radix {
        OUT_OF_RANGE
    } else {
        (c - symbol_value(c)) as u8
    }
}

/// What a decoding function returns for `c` in a base of radix `radix`:
/// the digit's value, or the same sentinel as [`classified`].
pub open spec fn decoded(c: u8, radix: int) -> u8 {
    if !is_alphanumerical_byte(c) {
        INVALID
    } else if symbol_value(c) >= radix {
        OUT_OF_RANGE
    } else {
        symbol_value(c) as u8
    }
}

/// [`classified`] for a custom base, whose own bounds are checked first.
pub open spec fn classified_custom(c: u8, base: u8) -> u8 {
    if base < Base::MIN {
        BASE_MIN
    } else if base > Base::MAX {
        BASE_MAX
    } else {
        classified(c, base as int)
    }
}

/// [`decoded`] for a custom base, whose own bounds are checked first.
pub open spec fn decoded_custom(c: u8, base: u8) -> u8 {
    if base < Base::MIN {
        BASE_MIN
    } else if base > Base::MAX {
        BASE_MAX
    } else {
        decoded(c, base as int)
    }
}

impl Base {
    pub open spec fn spec_radix(self) -> u8 {
        match self {
            Base::Binary => 2,
            Base::Octal => 8,
            Base::Decimal => 10,
            Base::Hexadecimal => 16,
        }
    }

    /// The number of digits of this base.
    #[verifier::when_used_as_spec(spec_radix)]
    pub fn radix(self) -> (r: u8)
        ensures
            r == self.spec_radix(),
    {
        match self {
            Base::Binary => 2,
            Base::Octal => 8,
            Base::Decimal => 10,
            Base::Hexadecimal => 16,
        }
    }
}

/// The tag a tagged classifying function gives `c`, from the sentinel-or-offset
/// result `res` of the core classification.
pub open spec fn ascii_digit_of(c: u8, res: u8) -> AsciiDigit {
    if res < INVALID {
        AsciiDigit::Valid
    } else if c == UNDERSCORE_ASCII {
        AsciiDigit::Underscore
    } else if c == DOT_ASCII {
        AsciiDigit::Dot
    } else if res == OUT_OF_RANGE {
        AsciiDigit::OutOfRange
    } else {
        AsciiDigit::Other
    }
}

/// The tagged digit a tagged decoding function gives `c`, from the
/// sentinel-or-value result `res` of the core decoding.
pub open spec fn digit_of(c: u8, res: u8) -> Digit {
    if res < INVALID {
        Digit::Valid(res)
    } else if c == UNDERSCORE_ASCII {
        Digit::Underscore
    } else if c == DOT_ASCII {
        Digit::Dot
    } else if res == OUT_OF_RANGE {
        Digit::OutOfRange
    } else {
        Digit::Other
    }
}

/// Classification of a byte, with the separator and the fractional point
/// named apart from other non-digits.
#[derive(Clone, Copy, Debug, Hash, PartialEq, Eq, Structural)]
pub enum AsciiDigit {
    Valid,
    Underscore,
    Dot,
    OutOfRange,
    Other,
}

/// Decoding of a byte, with the separator and the fractional point named
/// apart from other non-digits.
#[derive(Clone, Copy, Debug, Hash, PartialEq, Eq, Structural)]
pub enum Digit {
    Valid(u8),
    Underscore,
    Dot,
    OutOfRange,
    Other,
}

/// [`AsciiDigit`] for a custom base, which may itself be out of bounds.
#[derive(Clone, Copy, Debug, Hash, PartialEq, Eq, Structural)]
pub enum AsciiDigitCustomBase {
    Valid,
    Underscore,
    Dot,
    OutOfRange,
    Other,
    BaseMin,
    BaseMax,
}

/// [`Digit`] for a custom base, which may itself be out of bounds.
#[derive(Clone, Copy, Debug, Hash, PartialEq, Eq, Structural)]
pub enum DigitCustomBase {
    Valid(u8),
    Underscore,
    Dot,
    OutOfRange,
    Other,
    BaseMin,
    BaseMax,
}

// binary

pub fn is_binary_digit(ch: ascii) -> (r: bool)
    ensures
        r == (Base::BINARY_DIGIT_ASCII_START <= ch <= Base::BINARY_DIGIT_ASCII_END),
{
    Base::BINARY_DIGIT_ASCII_START <= ch && ch <= Base::BINARY_DIGIT_ASCII_END
}

pub fn is_binary_digit_out_of_range(ch: ascii) -> (r: bool)
    ensures
        r == (Base::BINARY_DIGIT_OUT_OF_RANGE_ASCII_START <= ch
            <= Base::BINARY_DIGIT_OUT_OF_RANGE_ASCII_END),
{
    Base::BINARY_DIGIT_OUT_OF_RANGE_ASCII_START <= ch && ch
        <= Base::BINARY_DIGIT_OUT_OF_RANGE_ASCII_END
}

pub fn is_binary_uppercase_out_of_range(ch: ascii) -> (r: bool)
    ensures
        r == is_uppercase_byte(ch),
{
    is_uppercase(ch)
}

pub fn is_binary_lowercase_out_of_range(ch: ascii) -> (r: bool)
    ensures
        r == is_lowercase_byte(ch),
{
    is_lowercase(ch)
}

pub fn is_binary_letter_out_of_range(ch: ascii) -> (r: bool)
    ensures
        r == is_letter_byte(ch),
{
    is_binary_uppercase_out_of_range(ch) || is_binary_lowercase_out_of_range(ch)
}

pub fn is_binary(ch: ascii) -> (r: bool)
    ensures
        r == is_digit_of(ch, 2),
{
    is_binary_digit(ch)
}

pub fn is_binary_out_of_range(ch: ascii) -> (r: bool)
    ensures
        r == is_out_of_range_of(ch, 2),
{
    is_binary_digit_out_of_range(ch) || is_binary_letter_out_of_range(ch)
}

/// The offset of a binary digit byte (the byte minus the offset is its
/// value), `OUT_OF_RANGE` for another alphanumeric byte, `INVALID` otherwise.
pub fn check_binary_offset(character: ascii) -> (r: Offset)
    ensures
        r == classified(character, 2),
{
    if is_binary_digit(character) {
        Base::BINARY_ASCII_OFFSET
    } else if is_binary_out_of_range(character) {
        OUT_OF_RANGE
    } else {
        INVALID
    }
}

/// The value of a binary digit byte, `OUT_OF_RANGE` for another
/// alphanumeric byte, `INVALID` otherwise.
pub fn parse_binary_offset(character: ascii) -> (r: DigitOffset)
    ensures
        r == decoded(character, 2),
{
    let offset = check_binary_offset(character);
    if offset >= INVALID {
        return offset;
    }
    character - offset
}

/// [`check_binary_offset`] as a tag, naming `'_'` and `'.'`.
pub fn check_binary(character: ascii) -> (r: AsciiDigit)
    ensures
        r == ascii_digit_of(character, classified(character, 2)),
{
    tag_ascii_digit(character, check_binary_offset(character))
}

/// [`parse_binary_offset`] as a tagged digit, naming `'_'` and `'.'`.
pub fn parse_binary(character: ascii) -> (r: Digit)
    ensures
        r == digit_of(character, decoded(character, 2)),
{
    tag_digit(character, parse_binary_offset(character))
}

// octal

pub fn is_octal_digit(ch: ascii) -> (r: bool)
    ensures
        r == (Base::OCTAL_DIGIT_ASCII_START <= ch <= Base::OCTAL_DIGIT_ASCII_END),
{
    Base::OCTAL_DIGIT_ASCII_START <= ch && ch <= Base::OCTAL_DIGIT_ASCII_END
}

pub fn is_octal_digit_out_of_range(ch: ascii) -> (r: bool)
    ensures
        r == (Base::OCTAL_DIGIT_OUT_OF_RANGE_ASCII_START <= ch
            <= Base::OCTAL_DIGIT_OUT_OF_RANGE_ASCII_END),
{
    Base::OCTAL_DIGIT_OUT_OF_RANGE_ASCII_START <= ch && ch
        <= Base::OCTAL_DIGIT_OUT_OF_RANGE_ASCII_END
}

pub fn is_octal_uppercase_out_of_range(ch: ascii) -> (r: bool)
    ensures
        r == is_uppercase_byte(ch),
{
    is_uppercase(ch)
}

pub fn is_octal_lowercase_out_of_range(ch: ascii) -> (r: bool)
    ensures
        r == is_lowercase_byte(ch),
{
    is_lowercase(ch)
}

pub fn is_octal_letter_out_of_range(ch: ascii) -> (r: bool)
    ensures
        r == is_letter_byte(ch),
{
    is_octal_uppercase_out_of_range(ch) || is_octal_lowercase_out_of_range(ch)
}

pub fn is_octal(ch: ascii) -> (r: bool)
    ensures
        r == is_digit_of(ch, 8),
{
    is_octal_digit(ch)
}

pub fn is_octal_out_of_range(ch: ascii) -> (r: bool)
    ensures
        r == is_out_of_range_of(ch, 8),
{
    is_octal_digit_out_of_range(ch) || is_octal_letter_out_of_range(ch)
}

/// The offset of a octal digit byte (the byte minus the offset is its
/// value), `OUT_OF_RANGE` for another alphanumeric byte, `INVALID` otherwise.
pub fn check_octal_offset(character: ascii) -> (r: Offset)
    ensures
        r == classified(character, 8),
{
    if is_octal_digit(character) {
        Base::OCTAL_ASCII_OFFSET
    } else if is_octal_out_of_range(character) {
        OUT_OF_RANGE
    } else {
        INVALID
    }
}

/// The value of a octal digit byte, `OUT_OF_RANGE` for another
/// alphanumeric byte, `INVALID` otherwise.
pub fn parse_octal_offset(character: ascii) -> (r: DigitOffset)
    ensures
        r == decoded(character, 8),
{
    let offset = check_octal_offset(character);
    if offset >= INVALID {
        return offset;
    }
    character - offset
}

/// [`check_octal_offset`] as a tag, naming `'_'` and `'.'`.
pub fn check_octal(character: ascii) -> (r: AsciiDigit)
    ensures
        r == ascii_digit_of(character, classified(character, 8)),
{
    tag_ascii_digit(character, check_octal_offset(character))
}

/// [`parse_octal_offset`] as a tagged digit, naming `'_'` and `'.'`.
pub fn parse_octal(character: ascii) -> (r: Digit)
    ensures
        r == digit_of(character, decoded(character, 8)),
{
    tag_digit(character, parse_octal_offset(character))
}

// decimal

pub fn is_decimal_digit(ch: ascii) -> (r: bool)
    ensures
        r == (Base::DECIMAL_DIGIT_ASCII_START <= ch <= Base::DECIMAL_DIGIT_ASCII_END),
{
    Base::DECIMAL_DIGIT_ASCII_START <= ch && ch <= Base::DECIMAL_DIGIT_ASCII_END
}

pub fn is_decimal_uppercase_out_of_range(ch: ascii) -> (r: bool)
    ensures
        r == is_uppercase_byte(ch),
{
    is_uppercase(ch)
}

pub fn is_decimal_lowercase_out_of_range(ch: ascii) -> (r: bool)
    ensures
        r == is_lowercase_byte(ch),
{
    is_lowercase(ch)
}

pub fn is_decimal_letter_out_of_range(ch: ascii) -> (r: bool)
    ensures
        r == is_letter_byte(ch),
{
    is_decimal_uppercase_out_of_range(ch) || is_decimal_lowercase_out_of_range(ch)
}

pub fn is_decimal(ch: ascii) -> (r: bool)
    ensures
        r == is_digit_of(ch, 10),
{
    is_decimal_digit(ch)
}

pub fn is_decimal_out_of_range(ch: ascii) -> (r: bool)
    ensures
        r == is_out_of_range_of(ch, 10),
{
    is_decimal_letter_out_of_range(ch)
}

/// The offset of a decimal digit byte (the byte minus the offset is its
/// value), `OUT_OF_RANGE` for another alphanumeric byte, `INVALID` otherwise.
pub fn check_decimal_offset(character: ascii) -> (r: Offset)
    ensures
        r == classified(character, 10),
{
    if is_decimal_digit(character) {
        Base::DECIMAL_ASCII_OFFSET
    } else if is_decimal_out_of_range(character) {
        OUT_OF_RANGE
    } else {
        INVALID
    }
}

/// The value of a decimal digit byte, `OUT_OF_RANGE` for another
/// alphanumeric byte, `INVALID` otherwise.
pub fn parse_decimal_offset(character: ascii) -> (r: DigitOffset)
    ensures
        r == decoded(character, 10),
{
    let offset = check_decimal_offset(character);
    if offset >= INVALID {
        return offset;
    }
    character - offset
}

/// [`check_decimal_offset`] as a tag, naming `'_'` and `'.'`.
pub fn check_decimal(character: ascii) -> (r: AsciiDigit)
    ensures
        r == ascii_digit_of(character, classified(character, 10)),
{
    tag_ascii_digit(character, check_decimal_offset(character))
}

/// [`parse_decimal_offset`] as a tagged digit, naming `'_'` and `'.'`.
pub fn parse_decimal(character: ascii) -> (r: Digit)
    ensures
        r == digit_of(character, decoded(character, 10)),
{
    tag_digit(character, parse_decimal_offset(character))
}

// hexadecimal

pub fn is_hexadecimal_digit(ch: ascii) -> (r: bool)
    ensures
        r == (Base::HEXADECIMAL_DIGIT_ASCII_START <= ch <= Base::HEXADECIMAL_DIGIT_ASCII_END),
{
    Base::HEXADECIMAL_DIGIT_ASCII_START <= ch && ch <= Base::HEXADECIMAL_DIGIT_ASCII_END
}

pub fn is_hexadecimal_uppercase(ch: ascii) -> (r: bool)
    ensures
        r == (Base::HEXADECIMAL_UPPERCASE_ASCII_START <= ch
            <= Base::HEXADECIMAL_UPPERCASE_ASCII_END),
{
    Base::HEXADECIMAL_UPPERCASE_ASCII_START <= ch && ch <= Base::HEXADECIMAL_UPPERCASE_ASCII_END
}

pub fn is_hexadecimal_lowercase(ch: ascii) -> (r: bool)
    ensures
        r == (Base::HEXADECIMAL_LOWERCASE_ASCII_START <= ch
            <= Base::HEXADECIMAL_LOWERCASE_ASCII_END),
{
    Base::HEXADECIMAL_LOWERCASE_ASCII_START <= ch && ch <= Base::HEXADECIMAL_LOWERCASE_ASCII_END
}

pub fn is_hexadecimal_letter(ch: ascii) -> (r: bool)
    ensures
        r == (is_letter_byte(ch) && symbol_value(ch) < 16),
{
    is_hexadecimal_uppercase(ch) || is_hexadecimal_lowercase(ch)
}

pub fn is_hexadecimal_uppercase_out_of_range(ch: ascii) -> (r: bool)
    ensures
        r == (Base::HEXADECIMAL_UPPERCASE_OUT_OF_RANGE_ASCII_START <= ch
            <= Base::HEXADECIMAL_UPPERCASE_OUT_OF_RANGE_ASCII_END),
{
    Base::HEXADECIMAL_UPPERCASE_OUT_OF_RANGE_ASCII_START <= ch && ch
        <= Base::HEXADECIMAL_UPPERCASE_OUT_OF_RANGE_ASCII_END
}

pub fn is_hexadecimal_lowercase_out_of_range(ch: ascii) -> (r: bool)
    ensures
        r == (Base::HEXADECIMAL_LOWERCASE_OUT_OF_RANGE_ASCII_START <= ch
            <= Base::HEXADECIMAL_LOWERCASE_OUT_OF_RANGE_ASCII_END),
{
    Base::HEXADECIMAL_LOWERCASE_OUT_OF_RANGE_ASCII_START <= ch && ch
        <= Base::HEXADECIMAL_LOWERCASE_OUT_OF_RANGE_ASCII_END
}

pub fn is_hexadecimal_letter_out_of_range(ch: ascii) -> (r: bool)
    ensures
        r == is_out_of_range_of(ch, 16),
{
    is_hexadecimal_uppercase_out_of_range(ch) || is_hexadecimal_lowercase_out_of_range(ch)
}

pub fn is_hexadecimal(ch: ascii) -> (r: bool)
    ensures
        r == is_digit_of(ch, 16),
{
    is_hexadecimal_digit(ch) || is_hexadecimal_letter(ch)
}

pub fn is_hexadecimal_out_of_range(ch: ascii) -> (r: bool)
    ensures
        r == is_out_of_range_of(ch, 16),
{
    is_hexadecimal_letter_out_of_range(ch)
}

/// The offset of a hexadecimal digit byte (the byte minus the offset is its
/// value), `OUT_OF_RANGE` for another alphanumeric byte, `INVALID` otherwise.
pub fn check_hexadecimal_offset(character: ascii) -> (r: Offset)
    ensures
        r == classified(character, 16),
{
    if is_hexadecimal_digit(character) {
        Base::HEXADECIMAL_DIGIT_ASCII_OFFSET
    } else if is_hexadecimal_uppercase(character) {
        Base::HEXADECIMAL_UPPERCASE_ASCII_OFFSET
    } else if is_hexadecimal_lowercase(character) {
        Base::HEXADECIMAL_LOWERCASE_ASCII_OFFSET
    } else if is_hexadecimal_out_of_range(character) {
        OUT_OF_RANGE
    } else {
        INVALID
    }
}

/// The value of a hexadecimal digit byte, `OUT_OF_RANGE` for another
/// alphanumeric byte, `INVALID` otherwise.
pub fn parse_hexadecimal_offset(character: ascii) -> (r: DigitOffset)
    ensures
        r == decoded(character, 16),
{
    let offset = check_hexadecimal_offset(character);
    if offset >= INVALID {
        return offset;
    }
    character - offset
}

/// [`check_hexadecimal_offset`] as a tag, naming `'_'` and `'.'`.
pub fn check_hexadecimal(character: ascii) -> (r: AsciiDigit)
    ensures
        r == ascii_digit_of(character, classified(character, 16)),
{
    tag_ascii_digit(character, check_hexadecimal_offset(character))
}

/// [`parse_hexadecimal_offset`] as a tagged digit, naming `'_'` and `'.'`.
pub fn parse_hexadecimal(character: ascii) -> (r: Digit)
    ensures
        r == digit_of(character, decoded(character, 16)),
{
    tag_digit(character, parse_hexadecimal_offset(character))
}

// the unified alphabet of custom bases

pub fn is_digit(ch: ascii) -> (r: bool)
    ensures
        r == is_digit_byte(ch),
{
    Base::DIGIT_ASCII_START <= ch && ch <= Base::DIGIT_ASCII_END
}

pub fn is_uppercase(ch: ascii) -> (r: bool)
    ensures
        r == is_uppercase_byte(ch),
{
    Base::UPPERCASE_ASCII_START <= ch && ch <= Base::UPPERCASE_ASCII_END
}

pub fn is_lowercase(ch: ascii) -> (r: bool)
    ensures
        r == is_lowercase_byte(ch),
{
    Base::LOWERCASE_ASCII_START <= ch && ch <= Base::LOWERCASE_ASCII_END
}

pub fn is_letter(ch: ascii) -> (r: bool)
    ensures
        r == is_letter_byte(ch),
{
    is_uppercase(ch) || is_lowercase(ch)
}

pub fn is_alphanumerical(ch: ascii) -> (r: bool)
    ensures
        r == is_alphanumerical_byte(ch),
{
    is_digit(ch) || is_letter(ch)
}

/// Tags the result of a core classification of `character`.
fn tag_ascii_digit(character: ascii, res: u8) -> (r: AsciiDigit)
    ensures
        r == ascii_digit_of(character, res),
{
    if res < INVALID {
        AsciiDigit::Valid
    } else if character == UNDERSCORE_ASCII {
        AsciiDigit::Underscore
    } else if character == DOT_ASCII {
        AsciiDigit::Dot
    } else if res == OUT_OF_RANGE {
        AsciiDigit::OutOfRange
    } else {
        AsciiDigit::Other
    }
}

/// Tags the result of a core decoding of `character`.
fn tag_digit(character: ascii, res: u8) -> (r: Digit)
    ensures
        r == digit_of(character, res),
{
    if res < INVALID {
        Digit::Valid(res)
    } else if character == UNDERSCORE_ASCII {
        Digit::Underscore
    } else if character == DOT_ASCII {
        Digit::Dot
    } else if res == OUT_OF_RANGE {
        Digit::OutOfRange
    } else {
        Digit::Other
    }
}

/// The offset of an alphanumeric byte in the unified alphabet, or `INVALID`.
fn alphanumerical_offset(character: ascii) -> (r: u8)
    ensures
        r == classified(character, Base::MAX as int),
{
    if is_digit(character) {
        Base::DIGIT_ASCII_OFFSET
    } else if is_uppercase(character) {
        Base::UPPERCASE_ASCII_OFFSET
    } else if is_lowercase(character) {
        Base::LOWERCASE_ASCII_OFFSET
    } else {
        INVALID
    }
}

/// The offset of a digit byte of the custom base `base` (2 to 36, letters
/// case-insensitively), `OUT_OF_RANGE` for another alphanumeric byte,
/// `INVALID` otherwise; `BASE_MIN` or `BASE_MAX` for a base out of bounds.
pub fn check_custom_offset(character: ascii, base: u8) -> (r: OffsetCustomBase)
    ensures
        r == classified_custom(character, base),
{
    if base < Base::MIN {
        return BASE_MIN;
    }
    if base > Base::MAX {
        return BASE_MAX;
    }
    let offset = alphanumerical_offset(character);
    if offset == INVALID {
        return INVALID;
    }
    let digit = character - offset;
    if digit >= base {
        return OUT_OF_RANGE;
    }
    offset
}

/// The value of a digit byte of the custom base `base` (2 to 36, letters
/// case-insensitively), or the sentinel [`check_custom_offset`] gives.
pub fn parse_custom_offset(character: ascii, base: u8) -> (r: DigitOffsetCustomBase)
    ensures
        r == decoded_custom(character, base),
{
    let offset = check_custom_offset(character, base);
    if offset >= INVALID {
        return offset;
    }
    character - offset
}

/// The tag a tagged custom-base classifying function gives `c`, from the
/// result `res` of the core custom-base classification.
pub open spec fn ascii_digit_custom_base_of(c: u8, res: u8) -> AsciiDigitCustomBase {
    if res == BASE_MIN {
        AsciiDigitCustomBase::BaseMin
    } else if res == BASE_MAX {
        AsciiDigitCustomBase::BaseMax
    } else {
        match ascii_digit_of(c, res) {
            AsciiDigit::Valid => AsciiDigitCustomBase::Valid,
            AsciiDigit::Underscore => AsciiDigitCustomBase::Underscore,
            AsciiDigit::Dot => AsciiDigitCustomBase::Dot,
            AsciiDigit::OutOfRange => AsciiDigitCustomBase::OutOfRange,
            AsciiDigit::Other => AsciiDigitCustomBase::Other,
        }
    }
}

/// The tagged digit a tagged custom-base decoding function gives `c`, from
/// the result `res` of the core custom-base decoding.
pub open spec fn digit_custom_base_of(c: u8, res: u8) -> DigitCustomBase {
    if res == BASE_MIN {
        DigitCustomBase::BaseMin
    } else if res == BASE_MAX {
        DigitCustomBase::BaseMax
    } else {
        match digit_of(c, res) {
            Digit::Valid(v) => DigitCustomBase::Valid(v),
            Digit::Underscore => DigitCustomBase::Underscore,
            Digit::Dot => DigitCustomBase::Dot,
            Digit::OutOfRange => DigitCustomBase::OutOfRange,
            Digit::Other => DigitCustomBase::Other,
        }
    }
}

/// [`check_custom_offset`] as a tag, naming `'_'` and `'.'`.
pub fn check_custom(character: ascii, base: u8) -> (r: AsciiDigitCustomBase)
    ensures
        r == ascii_digit_custom_base_of(character, classified_custom(character, base)),
{
    let res = check_custom_offset(character, base);
    if res == BASE_MIN {
        return AsciiDigitCustomBase::BaseMin;
    }
    if res == BASE_MAX {
        return AsciiDigitCustomBase::BaseMax;
    }
    match tag_ascii_digit(character, res) {
        AsciiDigit::Valid => AsciiDigitCustomBase::Valid,
        AsciiDigit::Underscore => AsciiDigitCustomBase::Underscore,
        AsciiDigit::Dot => AsciiDigitCustomBase::Dot,
        AsciiDigit::OutOfRange => AsciiDigitCustomBase::OutOfRange,
        AsciiDigit::Other => AsciiDigitCustomBase::Other,
    }
}

/// [`parse_custom_offset`] as a tagged digit, naming `'_'` and `'.'`.
pub fn parse_custom(character: ascii, base: u8) -> (r: DigitCustomBase)
    ensures
        r == digit_custom_base_of(character, decoded_custom(character, base)),
{
    let res = parse_custom_offset(character, base);
    if res == BASE_MIN {
        return DigitCustomBase::BaseMin;
    }
    if res == BASE_MAX {
        return DigitCustomBase::BaseMax;
    }
    match tag_digit(character, res) {
        Digit::Valid(v) => DigitCustomBase::Valid(v),
        Digit::Underscore => DigitCustomBase::Underscore,
        Digit::Dot => DigitCustomBase::Dot,
        Digit::OutOfRange => DigitCustomBase::OutOfRange,
        Digit::Other => DigitCustomBase::Other,
    }
}

/// Classifies `character` in a tally (unary) numeral whose one digit is
/// `tally_symbol`; the separator and the point keep their meaning.
pub fn check_tally(character: ascii, tally_symbol: ascii) -> (r: AsciiDigit)
    ensures
        r == (if character == UNDERSCORE_ASCII {
            AsciiDigit::Underscore
        } else if character == DOT_ASCII {
            AsciiDigit::Dot
        } else if character == tally_symbol {
            AsciiDigit::Valid
        } else {
            AsciiDigit::Other
        }),
{
    if character == UNDERSCORE_ASCII {
        AsciiDigit::Underscore
    } else if character == DOT_ASCII {
        AsciiDigit::Dot
    } else if character == tally_symbol {
        AsciiDigit::Valid
    } else {
        AsciiDigit::Other
    }
}

/// Decodes `character` in a tally numeral: each tally symbol counts one.
pub fn parse_tally(character: ascii, tally_symbol: ascii) -> (r: Digit)
    ensures
        r == (if character == UNDERSCORE_ASCII {
            Digit::Underscore
        } else if character == DOT_ASCII {
            Digit::Dot
        } else if character == tally_symbol {
            Digit::Valid(1)
        } else {
            Digit::Other
        }),
{
    if character == UNDERSCORE_ASCII {
        Digit::Underscore
    } else if character == DOT_ASCII {
        Digit::Dot
    } else if character == tally_symbol {
        Digit::Valid(1)
    } else {
        Digit::Other
    }
}

impl Base {
    /// The offset of `character` as a digit of this base, or a sentinel.
    pub fn check_offset(self, character: ascii) -> (r: Offset)
        ensures
            r == classified(character, self.radix() as int),
    {
        match self {
            Self::Binary => check_binary_offset(character),
            Self::Octal => check_octal_offset(character),
            Self::Decimal => check_decimal_offset(character),
            Self::Hexadecimal => check_hexadecimal_offset(character),
        }
    }

    /// The value of `character` as a digit of this base, or a sentinel.
    pub fn parse_offset(self, character: ascii) -> (r: DigitOffset)
        ensures
            r == decoded(character, self.radix() as int),
    {
        match self {
            Self::Binary => parse_binary_offset(character),
            Self::Octal => parse_octal_offset(character),
            Self::Decimal => parse_decimal_offset(character),
            Self::Hexadecimal => parse_hexadecimal_offset(character),
        }
    }

    /// The tag of `character` in this base.
    pub fn check(self, character: ascii) -> (r: AsciiDigit)
        ensures
            r == ascii_digit_of(character, classified(character, self.radix() as int)),
    {
        match self {
            Self::Binary => check_binary(character),
            Self::Octal => check_octal(character),
            Self::Decimal => check_decimal(character),
            Self::Hexadecimal => check_hexadecimal(character),
        }
    }

    /// The tagged digit `character` is in this base.
    pub fn parse(self, character: ascii) -> (r: Digit)
        ensures
            r == digit_of(character, decoded(character, self.radix() as int)),
    {
        match self {
            Self::Binary => parse_binary(character),
            Self::Octal => parse_octal(character),
            Self::Decimal => parse_decimal(character),
            Self::Hexadecimal => parse_hexadecimal(character),
        }
    }
}

/// The offset of `character` in `base`, as [`Base::check_offset`].
pub fn check_offset(character: ascii, base: Base) -> (r: Offset)
    ensures
        r == classified(character, base.radix() as int),
{
    base.check_offset(character)
}

/// The value of `character` in `base`, as [`Base::parse_offset`].
pub fn parse_offset(character: ascii, base: Base) -> (r: DigitOffset)
    ensures
        r == decoded(character, base.radix() as int),
{
    base.parse_offset(character)
}

/// The tag of `character` in `base`, as [`Base::check`].
pub fn check(character: ascii, base: Base) -> (r: AsciiDigit)
    ensures
        r == ascii_digit_of(character, classified(character, base.radix() as int)),
{
    base.check(character)
}

/// The tagged digit of `character` in `base`, as [`Base::parse`].
pub fn parse(character: ascii, base: Base) -> (r: Digit)
    ensures
        r == digit_of(character, decoded(character, base.radix() as int)),
{
    base.parse(character)
}

/// Whether `r` holds, in order, fresh `RangeInclusive`s with the bounds of
/// `ranges`.
pub open spec fn same_bounds<I: Ascii>(r: Seq<RangeInclusive<I>>, ranges: Seq<AsciiRange<I>>) -> bool {
    &&& r.len() == ranges.len()
    &&& forall|i: int|
        0 <= i < r.len() ==> #[trigger] r[i]@ == (RangeInclusiveView {
            start: ranges[i].start,
            end: ranges[i].end,
            exhausted: false,
        })
}

impl Base {
    /// The ranges of bytes that are digits of this base, in ascending order.
    pub open spec fn digit_ranges_ascii(self) -> Seq<AsciiRange<ascii>> {
        match self {
            Base::Binary => seq![
                AsciiRange { start: Base::BINARY_DIGIT_ASCII_START, end: Base::BINARY_DIGIT_ASCII_END },
            ],
            Base::Octal => seq![
                AsciiRange { start: Base::OCTAL_DIGIT_ASCII_START, end: Base::OCTAL_DIGIT_ASCII_END },
            ],
            Base::Decimal => seq![
                AsciiRange {
                    start: Base::DECIMAL_DIGIT_ASCII_START,
                    end: Base::DECIMAL_DIGIT_ASCII_END,
                },
            ],
            Base::Hexadecimal => seq![
                AsciiRange {
                    start: Base::HEXADECIMAL_DIGIT_ASCII_START,
                    end: Base::HEXADECIMAL_DIGIT_ASCII_END,
                },
                AsciiRange {
                    start: Base::HEXADECIMAL_UPPERCASE_ASCII_START,
                    end: Base::HEXADECIMAL_UPPERCASE_ASCII_END,
                },
                AsciiRange {
                    start: Base::HEXADECIMAL_LOWERCASE_ASCII_START,
                    end: Base::HEXADECIMAL_LOWERCASE_ASCII_END,
                },
            ],
        }
    }

    /// The ranges of characters that are digits of this base, in ascending order.
    pub open spec fn digit_ranges(self) -> Seq<AsciiRange<utf32>> {
        match self {
            Base::Binary => seq![
                AsciiRange { start: Base::BINARY_DIGIT_START, end: Base::BINARY_DIGIT_END },
            ],
            Base::Octal => seq![
                AsciiRange { start: Base::OCTAL_DIGIT_START, end: Base::OCTAL_DIGIT_END },
            ],
            Base::Decimal => seq![
                AsciiRange { start: Base::DECIMAL_DIGIT_START, end: Base::DECIMAL_DIGIT_END },
            ],
            Base::Hexadecimal => seq![
                AsciiRange {
                    start: Base::HEXADECIMAL_DIGIT_START,
                    end: Base::HEXADECIMAL_DIGIT_END,
                },
                AsciiRange {
                    start: Base::HEXADECIMAL_UPPERCASE_START,
                    end: Base::HEXADECIMAL_UPPERCASE_END,
                },
                AsciiRange {
                    start: Base::HEXADECIMAL_LOWERCASE_START,
                    end: Base::HEXADECIMAL_LOWERCASE_END,
                },
            ],
        }
    }

    /// The ranges of characters that are digits of this base.
    pub fn range(self) -> (r: Vec<AsciiRange<utf32>>)
        ensures
            r@ == self.digit_ranges(),
    {
        let mut v = Vec::new();
        match self {
            Self::Binary => {
                v.push(AsciiRange::new(Self::BINARY_DIGIT_START, Self::BINARY_DIGIT_END));
            },
            Self::Octal => {
                v.push(AsciiRange::new(Self::OCTAL_DIGIT_START, Self::OCTAL_DIGIT_END));
            },
            Self::Decimal => {
                v.push(AsciiRange::new(Self::DECIMAL_DIGIT_START, Self::DECIMAL_DIGIT_END));
            },
            Self::Hexadecimal => {
                v.push(AsciiRange::new(Self::HEXADECIMAL_DIGIT_START, Self::HEXADECIMAL_DIGIT_END));
                v.push(
                    AsciiRange::new(Self::HEXADECIMAL_UPPERCASE_START, Self::HEXADECIMAL_UPPERCASE_END),
                );
                v.push(
                    AsciiRange::new(Self::HEXADECIMAL_LOWERCASE_START, Self::HEXADECIMAL_LOWERCASE_END),
                );
            },
        }
        assert(v@ =~= self.digit_ranges());
        v
    }

    /// The ranges of bytes that are digits of this base.
    pub fn range_ascii(self) -> (r: Vec<AsciiRange<ascii>>)
        ensures
            r@ == self.digit_ranges_ascii(),
    {
        let mut v = Vec::new();
        match self {
            Self::Binary => {
                v.push(
                    AsciiRange::new(Self::BINARY_DIGIT_ASCII_START, Self::BINARY_DIGIT_ASCII_END),
                );
            },
            Self::Octal => {
                v.push(AsciiRange::new(Self::OCTAL_DIGIT_ASCII_START, Self::OCTAL_DIGIT_ASCII_END));
            },
            Self::Decimal => {
                v.push(
                    AsciiRange::new(Self::DECIMAL_DIGIT_ASCII_START, Self::DECIMAL_DIGIT_ASCII_END),
                );
            },
            Self::Hexadecimal => {
                v.push(
                    AsciiRange::new(
                        Self::HEXADECIMAL_DIGIT_ASCII_START,
                        Self::HEXADECIMAL_DIGIT_ASCII_END,
                    ),
                );
                v.push(
                    AsciiRange::new(
                        Self::HEXADECIMAL_UPPERCASE_ASCII_START,
                        Self::HEXADECIMAL_UPPERCASE_ASCII_END,
                    ),
                );
                v.push(
                    AsciiRange::new(
                        Self::HEXADECIMAL_LOWERCASE_ASCII_START,
                        Self::HEXADECIMAL_LOWERCASE_ASCII_END,
                    ),
                );
            },
        }
        assert(v@ =~= self.digit_ranges_ascii());
        v
    }

    /// [`Self::range`] as `RangeInclusive`s.
    pub fn range_ops(self) -> (r: Vec<RangeInclusive<utf32>>)
        ensures
            same_bounds(r@, self.digit_ranges()),
    {
        let ranges = self.range();
        let mut v: Vec<RangeInclusive<utf32>> = Vec::new();
        let mut i: usize = 0;
        while i < ranges.len()
            invariant
                i <= ranges@.len(),
                ranges@ == self.digit_ranges(),
                same_bounds(v@, ranges@.take(i as int)),
            decreases ranges@.len() - i,
        {
            v.push(RangeInclusive::new(ranges[i].start, ranges[i].end));
            i += 1;
        }
        assert(ranges@.take(i as int) =~= ranges@);
        v
    }

    /// [`Self::range_ascii`] as `RangeInclusive`s.
    pub fn range_ascii_ops(self) -> (r: Vec<RangeInclusive<ascii>>)
        ensures
            same_bounds(r@, self.digit_ranges_ascii()),
    {
        let ranges = self.range_ascii();
        let mut v: Vec<RangeInclusive<ascii>> = Vec::new();
        let mut i: usize = 0;
        while i < ranges.len()
            invariant
                i <= ranges@.len(),
                ranges@ == self.digit_ranges_ascii(),
                same_bounds(v@, ranges@.take(i as int)),
            decreases ranges@.len() - i,
        {
            v.push(RangeInclusive::new(ranges[i].start, ranges[i].end));
            i += 1;
        }
        assert(ranges@.take(i as int) =~= ranges@);
        v
    }
}

pub fn range(base: Base) -> (r: Vec<AsciiRange<utf32>>)
    ensures
        r@ == base.digit_ranges(),
{
    base.range()
}

pub fn range_ops(base: Base) -> (r: Vec<RangeInclusive<utf32>>)
    ensures
        same_bounds(r@, base.digit_ranges()),
{
    base.range_ops()
}

pub fn range_ascii(base: Base) -> (r: Vec<AsciiRange<ascii>>)
    ensures
        r@ == base.digit_ranges_ascii(),
{
    base.range_ascii()
}

pub fn range_ascii_ops(base: Base) -> (r: Vec<RangeInclusive<ascii>>)
    ensures
        same_bounds(r@, base.digit_ranges_ascii()),
{
    base.range_ascii_ops()
}

// laws

/// A byte decodes to a digit of a fixed base exactly when its classification
/// is an offset (below `INVALID`) and the byte minus that offset is below the
/// radix; the decoded value is then the byte minus the offset.
pub proof fn lemma_decode_agrees_with_classify(c: u8, base: Base)
    ensures
        decoded(c, base.radix() as int) < base.radix() <==> (classified(c, base.radix() as int)
            < INVALID && c - classified(c, base.radix() as int) < base.radix()),
        classified(c, base.radix() as int) < INVALID ==> decoded(c, base.radix() as int) == c
            - classified(c, base.radix() as int),
{
}

/// Every digit value of a base is what some byte decodes to; a letter value
/// is what both its uppercase and its lowercase letter decode to.
pub proof fn lemma_every_digit_value_decodes(base: Base, v: u8)
    requires
        v < base.radix(),
    ensures
        exists|b: u8| decoded(b, base.radix() as int) == v,
        v >= 10 ==> decoded((Base::UPPERCASE_ASCII_START + v - 10) as u8, base.radix() as int)
            == v,
        v >= 10 ==> decoded((Base::LOWERCASE_ASCII_START + v - 10) as u8, base.radix() as int)
            == v,
{
    if v < 10 {
        assert(decoded((Base::DIGIT_ASCII_START + v) as u8, base.radix() as int) == v);
    } else {
        assert(decoded((Base::UPPERCASE_ASCII_START + v - 10) as u8, base.radix() as int) == v);
    }
}

/// An uppercase letter and its lowercase letter classify alike in every
/// custom base: the same value, or the same sentinel.
pub proof fn lemma_letter_case_is_ignored(c: u8, base: u8)
    requires
        is_uppercase_byte(c),
    ensures
        decoded_custom(c, base) == decoded_custom((c + 0x20) as u8, base),
        decoded(c, base as int) == decoded((c + 0x20) as u8, base as int),
{
}

/// A custom base below [`Base::MIN`] is reported as `BASE_MIN`, one above
/// [`Base::MAX`] as `BASE_MAX`, whatever the byte, and a base within the bounds
/// never is.
pub proof fn lemma_custom_base_bounds(c: u8, base: u8)
    ensures
        classified_custom(c, base) == BASE_MIN <==> base < Base::MIN,
        classified_custom(c, base) == BASE_MAX <==> base > Base::MAX,
        decoded_custom(c, base) == BASE_MIN <==> base < Base::MIN,
        decoded_custom(c, base) == BASE_MAX <==> base > Base::MAX,
{
}

/// An alphanumeric byte is a digit of a valid custom base exactly when its
/// value is below the base, and a digit keeps its value in every larger base.
pub proof fn lemma_custom_base_monotonic(c: u8, base: u8, larger: u8)
    requires
        is_alphanumerical_byte(c),
        Base::MIN <= base <= larger <= Base::MAX,
    ensures
        decoded_custom(c, base) < INVALID <==> symbol_value(c) < base,
        decoded_custom(c, base) == OUT_OF_RANGE <==> symbol_value(c) >= base,
        decoded_custom(c, base) < INVALID ==> decoded_custom(c, larger) == decoded_custom(c, base),
{
}

/// No digit value collides with a sentinel: every decoded value is below the
/// largest radix, and the sentinels are four distinct values above it.
pub proof fn lemma_sentinels_above_digits(c: u8, base: u8)
    ensures
        decoded_custom(c, base) < INVALID ==> decoded_custom(c, base) < Base::MAX,
        Base::MAX < INVALID,
        INVALID < OUT_OF_RANGE < BASE_MIN < BASE_MAX,
{
}

/// A fixed base classifies and decodes as the custom base of its radix.
pub proof fn lemma_fixed_base_is_custom_base(c: u8, base: Base)
    ensures
        classified(c, base.radix() as int) == classified_custom(c, base.radix()),
        decoded(c, base.radix() as int) == decoded_custom(c, base.radix()),
{
}

/// The tagged layer names `'_'` as `Underscore` and `'.'` as `Dot` in every
/// fixed base and every valid custom base.
pub proof fn lemma_separators_are_named(base: Base, custom: u8)
    requires
        Base::MIN <= custom <= Base::MAX,
    ensures
        ascii_digit_of(UNDERSCORE_ASCII, classified(UNDERSCORE_ASCII, base.radix() as int))
            == AsciiDigit::Underscore,
        ascii_digit_of(DOT_ASCII, classified(DOT_ASCII, base.radix() as int)) == AsciiDigit::Dot,
        digit_of(UNDERSCORE_ASCII, decoded(UNDERSCORE_ASCII, base.radix() as int))
            == Digit::Underscore,
        digit_of(DOT_ASCII, decoded(DOT_ASCII, base.radix() as int)) == Digit::Dot,
        ascii_digit_custom_base_of(UNDERSCORE_ASCII, classified_custom(UNDERSCORE_ASCII, custom))
            == AsciiDigitCustomBase::Underscore,
        ascii_digit_custom_base_of(DOT_ASCII, classified_custom(DOT_ASCII, custom))
            == AsciiDigitCustomBase::Dot,
        digit_custom_base_of(UNDERSCORE_ASCII, decoded_custom(UNDERSCORE_ASCII, custom))
            == DigitCustomBase::Underscore,
        digit_custom_base_of(DOT_ASCII, decoded_custom(DOT_ASCII, custom)) == DigitCustomBase::Dot,
{
}

/// A byte is a digit of a fixed base exactly when it lies in one of the
/// base's digit ranges.
pub proof fn lemma_digit_ranges_cover(c: u8, base: Base)
    ensures
        is_digit_of(c, base.radix() as int) <==> exists|i: int|
            0 <= i < base.digit_ranges_ascii().len() && #[trigger] base.digit_ranges_ascii()[i].start
                <= c <= base.digit_ranges_ascii()[i].end,
{
    let ranges = base.digit_ranges_ascii();
    if is_digit_of(c, base.radix() as int) {
        if is_digit_byte(c) {
            assert(ranges[0].start <= c <= ranges[0].end);
        } else if is_uppercase_byte(c) {
            assert(ranges[1].start <= c <= ranges[1].end);
        } else {
            assert(ranges[2].start <= c <= ranges[2].end);
        }
    }
}

} // verus!
