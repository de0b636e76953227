//! Hexadecimal text: what it means for a string to be hex, which bytes it
//! stands for, and the calls into the `hex` crate that convert both ways.

use vstd::prelude::*;
use vstd::utf8::{
    encode_scalar, encode_utf8, has_width_1_encoding, is_ascii_chars, is_ascii_chars_encode_utf8,
};

verus! {

/// `c` is one of `0-9`, `a-f`, `A-F`.
pub open spec fn is_hex_digit(c: char) -> bool {
    let n = c as int;
    (0x30 <= n <= 0x39) || (0x41 <= n <= 0x46) || (0x61 <= n <= 0x66)
}

/// The value 0..16 of a hex digit.
pub open spec fn digit_value(c: char) -> int {
    let n = c as int;
    if 0x30 <= n <= 0x39 {
        n - 0x30
    } else if 0x41 <= n <= 0x46 {
        n - 0x41 + 10
    } else {
        n - 0x61 + 10
    }
}

/// The lower-case hex digit for a value 0..16.
pub open spec fn digit_char(v: int) -> char {
    if v < 10 {
        (0x30 + v) as char
    } else {
        (0x61 + v - 10) as char
    }
}

/// `text` is an even number of hex digits and nothing else.
pub open spec fn is_hex_text(text: Seq<char>) -> bool {
    &&& text.len() % 2 == 0
    &&& forall|i: int| 0 <= i < text.len() ==> is_hex_digit(#[trigger] text[i])
}

/// The bytes that hex text stands for: each pair of digits is one byte, the
/// first digit its high half.
pub open spec fn hex_to_bytes(text: Seq<char>) -> Seq<u8> {
    Seq::new(
        text.len() / 2,
        |i: int| (16 * digit_value(text[2 * i]) + digit_value(text[2 * i + 1])) as u8,
    )
}

/// The lower-case hex text of a byte string: two digits per byte.
pub open spec fn bytes_to_hex(bytes: Seq<u8>) -> Seq<char> {
    Seq::new(
        2 * bytes.len(),
        |i: int|
            if i % 2 == 0 {
                digit_char(bytes[i / 2] as int / 16)
            } else {
                digit_char(bytes[i / 2] as int % 16)
            },
    )
}

/// The hex text of any byte string is hex text.
pub proof fn lemma_bytes_to_hex_is_hex_text(bytes: Seq<u8>)
    ensures
        is_hex_text(bytes_to_hex(bytes)),
        bytes_to_hex(bytes).len() == 2 * bytes.len(),
{
    let text = bytes_to_hex(bytes);
    assert forall|i: int| 0 <= i < text.len() implies is_hex_digit(#[trigger] text[i]) by {
        let b = bytes[i / 2] as int;
        assert(0 <= b / 16 < 16);
        assert(0 <= b % 16 < 16);
    }
}

/// Decoding the hex text of a byte string gives the byte string back.
pub proof fn lemma_hex_round_trip(bytes: Seq<u8>)
    ensures
        hex_to_bytes(bytes_to_hex(bytes)) == bytes,
{
    let text = bytes_to_hex(bytes);
    let back = hex_to_bytes(text);
    assert(back.len() == bytes.len());
    assert forall|i: int| 0 <= i < bytes.len() implies back[i] == bytes[i] by {
        let b = bytes[i] as int;
        assert((2 * i) % 2 == 0);
        assert((2 * i + 1) % 2 == 1);
        assert((2 * i) / 2 == i);
        assert((2 * i + 1) / 2 == i);
        assert(text[2 * i] == digit_char(b / 16));
        assert(text[2 * i + 1] == digit_char(b % 16));
        assert(0 <= b / 16 < 16);
        assert(0 <= b % 16 < 16);
        assert(digit_value(digit_char(b / 16)) == b / 16);
        assert(digit_value(digit_char(b % 16)) == b % 16);
        assert(16 * (b / 16) + b % 16 == b);
    }
    assert(back =~= bytes);
}

/// `b` is the ASCII code of a hex digit.
pub open spec fn is_hex_byte(b: u8) -> bool {
    (0x30 <= b <= 0x39) || (0x41 <= b <= 0x46) || (0x61 <= b <= 0x66)
}

/// The value 0..16 of the hex digit with ASCII code `b`.
pub open spec fn byte_digit_value(b: u8) -> int {
    if 0x30 <= b <= 0x39 {
        b - 0x30
    } else if 0x41 <= b <= 0x46 {
        b - 0x41 + 10
    } else {
        b - 0x61 + 10
    }
}

/// `data` is an even number of ASCII hex digits and nothing else.
pub open spec fn is_hex_bytes(data: Seq<u8>) -> bool {
    &&& data.len() % 2 == 0
    &&& forall|i: int| 0 <= i < data.len() ==> is_hex_byte(#[trigger] data[i])
}

/// The bytes that ASCII hex digits stand for: each pair of digits is one
/// byte, the first digit its high half.
pub open spec fn hex_bytes_to_bytes(data: Seq<u8>) -> Seq<u8> {
    Seq::new(
        data.len() / 2,
        |i: int| (16 * byte_digit_value(data[2 * i]) + byte_digit_value(data[2 * i + 1])) as u8,
    )
}

/// A character outside ASCII starts its UTF-8 encoding with a byte of 0x80
/// or more.
proof fn lemma_wide_scalar_leads_high(c: char)
    requires
        !has_width_1_encoding(c as u32),
    ensures
        encode_scalar(c as u32).len() >= 1,
        encode_scalar(c as u32)[0] >= 0x80,
{
    let s = c as u32;
    assert(0xC0u8 | ((s >> 6) & 0x1F) as u8 >= 0x80) by (bit_vector);
    assert(0xE0u8 | ((s >> 12) & 0x0F) as u8 >= 0x80) by (bit_vector);
    assert(0xF0u8 | ((s >> 18) & 0x7) as u8 >= 0x80) by (bit_vector);
}

/// A character with a one-byte encoding is an ASCII character.
proof fn lemma_narrow_scalar_is_ascii(c: char)
    requires
        has_width_1_encoding(c as u32),
    ensures
        '\0' <= c <= '\u{7f}',
{
}

/// A string whose UTF-8 bytes are all below 0x80 holds only ASCII
/// characters.
proof fn lemma_ascii_bytes_are_ascii_chars(chars: Seq<char>)
    requires
        forall|i: int| 0 <= i < encode_utf8(chars).len() ==> #[trigger] encode_utf8(chars)[i] < 0x80,
    ensures
        is_ascii_chars(chars),
    decreases chars.len(),
{
    if chars.len() > 0 {
        let first = encode_scalar(chars[0] as u32);
        let rest = encode_utf8(chars.drop_first());
        let bytes = encode_utf8(chars);
        assert(bytes == first + rest);
        if !has_width_1_encoding(chars[0] as u32) {
            lemma_wide_scalar_leads_high(chars[0]);
            assert(bytes[0] == first[0]);
            assert(bytes[0] < 0x80);
        }
        assert(first.len() == 1);
        assert forall|i: int| 0 <= i < rest.len() implies #[trigger] rest[i] < 0x80 by {
            assert(rest[i] == bytes[i + 1]);
        }
        lemma_ascii_bytes_are_ascii_chars(chars.drop_first());
        assert forall|i: int| 0 <= i < chars.len() implies '\0' <= #[trigger] chars[i] <= '\u{7f}' by {
            if i > 0 {
                let tail = chars.drop_first();
                assert('\0' <= tail[i - 1] <= '\u{7f}');
                assert(chars[i] == tail[i - 1]);
            } else {
                lemma_narrow_scalar_is_ascii(chars[0]);
            }
        }
    }
}

/// A string is hex text exactly when its UTF-8 bytes are ASCII hex digits in
/// even number, and then both stand for the same bytes.
pub proof fn lemma_hex_text_in_utf8(text: Seq<char>)
    ensures
        is_hex_text(text) <==> is_hex_bytes(encode_utf8(text)),
        is_hex_text(text) ==> hex_to_bytes(text) == hex_bytes_to_bytes(encode_utf8(text)),
{
    let data = encode_utf8(text);
    if is_hex_text(text) {
        assert(is_ascii_chars(text));
        is_ascii_chars_encode_utf8(text);
        assert forall|i: int| 0 <= i < data.len() implies is_hex_byte(#[trigger] data[i]) by {
            assert(is_hex_digit(text[i]));
            assert(data[i] == text[i] as u8);
        }
        assert forall|i: int| 0 <= i < data.len() implies byte_digit_value(#[trigger] data[i])
            == digit_value(text[i]) by {
            assert(is_hex_digit(text[i]));
            assert(data[i] == text[i] as u8);
        }
        assert(hex_to_bytes(text) =~= hex_bytes_to_bytes(data));
    }
    if is_hex_bytes(data) {
        assert forall|i: int| 0 <= i < data.len() implies #[trigger] data[i] < 0x80 by {
            assert(is_hex_byte(data[i]));
        }
        lemma_ascii_bytes_are_ascii_chars(text);
        is_ascii_chars_encode_utf8(text);
        assert forall|i: int| 0 <= i < text.len() implies is_hex_digit(#[trigger] text[i]) by {
            assert(is_hex_byte(data[i]));
            assert(data[i] == text[i] as u8);
        }
    }
}

/// The error of the `hex` crate's decoder, carried through unopened.
#[verifier::external_type_specification]
#[verifier::external_body]
pub struct ExFromHexError(hex::FromHexError);

/// Calls `hex::decode`.
///
/// The decoder fails when the number of bytes is odd or when a byte is not an
/// ASCII hex digit, and otherwise packs each pair of digits into one byte,
/// high half first.
#[verifier::external_body]
pub(crate) fn decode_hex(data: &[u8]) -> (r: Result<Vec<u8>, hex::FromHexError>)
    ensures
        r is Ok <==> is_hex_bytes(data@),
        r matches Ok(bytes) ==> bytes@ == hex_bytes_to_bytes(data@),
{
    hex::decode(data)
}

/// Calls `hex::encode`.
///
/// The encoder writes two lower-case digits per byte, high half first.
#[verifier::external_body]
pub(crate) fn encode_hex(bytes: &[u8]) -> (text: String)
    ensures
        text@ == bytes_to_hex(bytes@),
{
    hex::encode(bytes)
}

} // verus!
