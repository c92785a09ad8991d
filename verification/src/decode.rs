//! Bit-level extraction of a Unicode codepoint from the payload bits of the
//! bytes of a multi-byte UTF-8 sequence.

use vstd::prelude::*;
use vstd::utf8::codepoint_width_2;
use vstd::utf8::codepoint_width_3;
use vstd::utf8::codepoint_width_4;
use vstd::utf8::is_leading_byte_width_3;
use vstd::utf8::is_scalar;

verus! {

/// Relies on `char::from_u32`: yields the character with the given scalar
/// value exactly when the value is a Unicode scalar, that is, at most
/// 0x10FFFF and not in the surrogate range.
#[verifier::external_body]
pub(crate) fn char_from_u32(v: u32) -> (r: Option<char>)
    ensures
        r == if is_scalar(v) {
            Option::Some(v as char)
        } else {
            Option::None::<char>
        },
{
    char::from_u32(v)
}

/// Convert four bytes to a u32
///
/// Packs the payload bits of a four-byte UTF-8 sequence (3 bits of the lead
/// byte, 6 of each continuation byte) into the encoded codepoint.
#[inline(always)]
pub fn convert_four_to_u32(
    first_byte: u8,
    second_byte: u8,
    third_byte: u8,
    fourth_byte: u8,
) -> (r: u32)
    ensures
        r == codepoint_width_4(first_byte, second_byte, third_byte, fourth_byte),
        r == (first_byte as u32 % 8) * 0x40000 + (second_byte as u32 % 64) * 0x1000 + (
        third_byte as u32 % 64) * 0x40 + (fourth_byte as u32 % 64),
{
    let r = ((first_byte as u32 & 0b0000_0111) << 18) | ((second_byte as u32 & 0b0011_1111) << 12)
        | ((third_byte as u32 & 0b0011_1111) << 6) | (fourth_byte as u32 & 0b0011_1111);
    proof {
        assert(r == (first_byte as u32 % 8) * 0x40000 + (second_byte as u32 % 64) * 0x1000 + (
        third_byte as u32 % 64) * 0x40 + (fourth_byte as u32 % 64)) by (bit_vector)
            requires
                r == ((first_byte as u32 & 0x07) << 18) | ((second_byte as u32 & 0x3f) << 12) | ((
                third_byte as u32 & 0x3f) << 6) | (fourth_byte as u32 & 0x3f),
        ;
    }
    r
}

/// Convert three bytes to a u32
///
/// Packs the low 5 bits of the first byte and 6 bits of each continuation
/// byte. For a well-formed three-byte lead (`0xE0..=0xEF`) the fifth bit is
/// always clear, so the result is the encoded codepoint.
#[inline(always)]
pub fn convert_three_to_u32(first_byte: u8, second_byte: u8, third_byte: u8) -> (r: u32)
    ensures
        r == (first_byte as u32 % 32) * 0x1000 + (second_byte as u32 % 64) * 0x40 + (
        third_byte as u32 % 64),
        is_leading_byte_width_3(first_byte) ==> r == codepoint_width_3(
            first_byte,
            second_byte,
            third_byte,
        ),
{
    let r = ((first_byte as u32 & 0b0001_1111) << 12) | ((second_byte as u32 & 0b0011_1111) << 6)
        | (third_byte as u32 & 0b0011_1111);
    proof {
        assert(r == (first_byte as u32 % 32) * 0x1000 + (second_byte as u32 % 64) * 0x40 + (
        third_byte as u32 % 64)) by (bit_vector)
            requires
                r == ((first_byte as u32 & 0x1f) << 12) | ((second_byte as u32 & 0x3f) << 6) | (
                third_byte as u32 & 0x3f),
        ;
        assert(0xe0 <= first_byte <= 0xef ==> r == ((first_byte as u32 & 0x0f) << 12) | ((
        second_byte as u32 & 0x3f) << 6) | (third_byte as u32 & 0x3f)) by (bit_vector)
            requires
                r == ((first_byte as u32 & 0x1f) << 12) | ((second_byte as u32 & 0x3f) << 6) | (
                third_byte as u32 & 0x3f),
        ;
    }
    r
}

/// Convert two bytes to a u32
///
/// Packs the payload bits of a two-byte UTF-8 sequence (5 bits of the lead
/// byte, 6 of the continuation byte) into the encoded codepoint.
#[inline(always)]
pub fn convert_two_to_u32(first_byte: u8, second_byte: u8) -> (r: u32)
    ensures
        r == codepoint_width_2(first_byte, second_byte),
        r == (first_byte as u32 % 32) * 0x40 + (second_byte as u32 % 64),
{
    let r = ((first_byte as u32 & 0b0001_1111) << 6) | (second_byte as u32 & 0b0011_1111);
    proof {
        assert(r == (first_byte as u32 % 32) * 0x40 + (second_byte as u32 % 64)) by (bit_vector)
            requires
                r == ((first_byte as u32 & 0x1f) << 6) | (second_byte as u32 & 0x3f),
        ;
    }
    r
}

} // verus!
