//! Header values: which strings may be sent as the value of a header.

use vstd::prelude::*;
use vstd::utf8::encode_scalar;
use vstd::utf8::encode_utf8;

verus! {

/// A byte that may occur in a header value: a tab, or any byte from the space
/// upwards except DEL.
pub open spec fn header_byte_valid(b: u8) -> bool {
    (b >= 32 && b != 127) || b == 9
}

/// A character that may occur in a header value: a tab, or any character
/// from the space upwards except DEL.
pub open spec fn header_char_valid(c: char) -> bool {
    (c >= ' ' && c != '\u{7f}') || c == '\t'
}

/// Whether every byte of a sequence may occur in a header value.
pub open spec fn header_bytes_valid(bytes: Seq<u8>) -> bool {
    forall|i: int| 0 <= i < bytes.len() ==> header_byte_valid(#[trigger] bytes[i])
}

/// A string may be sent as a header value when every byte of its UTF-8
/// encoding may occur in one.
pub open spec fn header_value_valid(value: Seq<char>) -> bool {
    header_bytes_valid(encode_utf8(value))
}

/// Asks `hyper::header::HeaderValue::from_str` whether it accepts `value`.
/// It refuses a string exactly when one of its bytes is a control character
/// other than tab (below 32, or 127), and accepts every other string.
#[verifier::external_body]
pub(crate) fn is_valid_header_value(value: &str) -> (ok: bool)
    ensures
        ok == header_value_valid(value@),
{
    hyper::header::HeaderValue::from_str(value).is_ok()
}

/// The bytes that encode one character may all occur in a header value
/// exactly when the character may: a character beyond ASCII is encoded in
/// bytes from 128 upwards, and an ASCII character is its own byte.
proof fn lemma_encoded_char_valid(c: char)
    ensures
        encode_scalar(c as u32).len() > 0,
        header_bytes_valid(encode_scalar(c as u32)) <==> header_char_valid(c),
{
    let scalar = c as u32;
    let bytes = encode_scalar(scalar);
    assert(scalar <= 0x7F ==> (scalar & 0x7F) as u8 == scalar) by (bit_vector);
    assert(0xC0u8 | ((scalar >> 6) & 0x1F) as u8 >= 0x80) by (bit_vector);
    assert(0xE0u8 | ((scalar >> 12) & 0x0F) as u8 >= 0x80) by (bit_vector);
    assert(0xF0u8 | ((scalar >> 18) & 0x7) as u8 >= 0x80) by (bit_vector);
    assert(0x80u8 | (scalar & 0x3F) as u8 >= 0x80) by (bit_vector);
    assert(0x80u8 | ((scalar >> 6) & 0x3F) as u8 >= 0x80) by (bit_vector);
    assert(0x80u8 | ((scalar >> 12) & 0x3F) as u8 >= 0x80) by (bit_vector);
    if scalar <= 0x7F {
        assert(bytes[0] == scalar);
        assert(header_byte_valid(bytes[0]) <==> header_char_valid(c));
    } else {
        assert(header_char_valid(c));
        assert forall|i: int| 0 <= i < bytes.len() implies header_byte_valid(#[trigger] bytes[i]) by {
            assert(bytes[i] >= 0x80);
        }
    }
}

/// A string may be sent as a header value exactly when each of its
/// characters may occur in one.
pub proof fn lemma_header_value_valid_by_chars(value: Seq<char>)
    ensures
        header_value_valid(value) <==> forall|i: int|
            0 <= i < value.len() ==> header_char_valid(#[trigger] value[i]),
    decreases value.len(),
{
    if value.len() > 0 {
        let head = encode_scalar(value[0] as u32);
        let rest = value.drop_first();
        let tail = encode_utf8(rest);
        assert(encode_utf8(value) == head + tail);
        lemma_encoded_char_valid(value[0]);
        lemma_header_value_valid_by_chars(rest);
        if header_value_valid(value) {
            assert forall|i: int| 0 <= i < head.len() implies header_byte_valid(
                #[trigger] head[i],
            ) by {
                assert(head[i] == (head + tail)[i]);
            }
            assert forall|i: int| 0 <= i < tail.len() implies header_byte_valid(
                #[trigger] tail[i],
            ) by {
                assert(tail[i] == (head + tail)[i + head.len()]);
            }
            assert forall|i: int| 0 <= i < value.len() implies header_char_valid(
                #[trigger] value[i],
            ) by {
                if i > 0 {
                    assert(value[i] == rest[i - 1]);
                }
            }
        }
        if forall|i: int| 0 <= i < value.len() ==> header_char_valid(#[trigger] value[i]) {
            assert(header_char_valid(value[0]));
            assert forall|i: int| 0 <= i < rest.len() implies header_char_valid(
                #[trigger] rest[i],
            ) by {
                assert(rest[i] == value[i + 1]);
            }
            assert forall|i: int| 0 <= i < (head + tail).len() implies header_byte_valid(
                #[trigger] (head + tail)[i],
            ) by {
                if i < head.len() {
                    assert((head + tail)[i] == head[i]);
                } else {
                    assert((head + tail)[i] == tail[i - head.len()]);
                }
            }
        }
    }
}

/// A string of printable ASCII characters is a valid header value.
pub proof fn lemma_printable_ascii_is_valid(value: Seq<char>)
    requires
        forall|i: int| 0 <= i < value.len() ==> ' ' <= #[trigger] value[i] <= '~',
    ensures
        header_value_valid(value),
{
    lemma_header_value_valid_by_chars(value);
}

} // verus!
