//! What the summariser knows of HTTP: status codes, the values a header may
//! carry, and the one request it sends.

use vstd::prelude::*;
use vstd::utf8::encode_scalar;
use vstd::utf8::encode_utf8;
use vstd::utf8::has_width_1_encoding;
use vstd::utf8::has_width_2_encoding;
use vstd::utf8::has_width_3_encoding;

verus! {

/// The status "OK", the only one with which an exchange goes on.
pub const STATUS_OK: u16 = 200;

/// The words for a number that is no status code.
pub const INVALID_STATUS_CODE: &'static str = "invalid status code";

/// The words with which a header value is refused.
pub const INVALID_HEADER_VALUE: &'static str = "failed to parse header value";

/// A byte that a header value may hold: a tab, or anything from the space
/// upwards but the delete character.
pub open spec fn header_byte_ok(byte: u8) -> bool {
    byte == 9 || (byte >= 32 && byte != 127)
}

/// Bytes that can stand as a header value: each of them may.
pub open spec fn header_bytes_ok(bytes: Seq<u8>) -> bool {
    forall|i: int| 0 <= i < bytes.len() ==> header_byte_ok(#[trigger] bytes[i])
}

/// A character whose UTF-8 encoding a header value may hold: every character
/// but the control characters other than the tab.
pub open spec fn header_char_ok(c: char) -> bool {
    c as u32 == 9 || (c as u32 >= 32 && c as u32 != 127)
}

/// Text that can stand as a header value: each of its characters may.
pub open spec fn header_text_ok(text: Seq<char>) -> bool {
    forall|i: int| 0 <= i < text.len() ==> header_char_ok(#[trigger] text[i])
}

/// The one byte of a short encoding is the character's own number.
proof fn lemma_single_byte(scalar: u32)
    by (bit_vector)
    requires
        scalar <= 0x7F,
    ensures
        (scalar & 0x7F) as u8 == scalar,
{
}

/// A byte with a leading or continuation mark on it is 128 or more.
proof fn lemma_marked_byte(bits: u8)
    by (bit_vector)
    ensures
        0x80u8 | bits >= 0x80,
        0xC0u8 | bits >= 0x80,
        0xE0u8 | bits >= 0x80,
        0xF0u8 | bits >= 0x80,
{
}

/// The encoding of one character holds only bytes that a header value may
/// hold exactly when the character itself is one that it may hold.
proof fn lemma_header_scalar(c: char)
    ensures
        header_bytes_ok(encode_scalar(c as u32)) <==> header_char_ok(c),
{
    let scalar = c as u32;
    let bytes = encode_scalar(scalar);
    if has_width_1_encoding(scalar) {
        lemma_single_byte(scalar);
        assert(bytes[0] == scalar);
    } else {
        lemma_marked_byte((scalar & 0x3F) as u8);
        lemma_marked_byte(((scalar >> 6) & 0x3F) as u8);
        lemma_marked_byte(((scalar >> 12) & 0x3F) as u8);
        if has_width_2_encoding(scalar) {
            lemma_marked_byte(((scalar >> 6) & 0x1F) as u8);
            assert(bytes.len() == 2);
        } else if has_width_3_encoding(scalar) {
            lemma_marked_byte(((scalar >> 12) & 0x0F) as u8);
            assert(bytes.len() == 3);
        } else {
            lemma_marked_byte(((scalar >> 18) & 0x7) as u8);
            assert(bytes.len() == 4);
        }
        assert(forall|i: int| 0 <= i < bytes.len() ==> #[trigger] bytes[i] >= 0x80);
    }
}

/// A text can stand as a header value exactly when its UTF-8 encoding can:
/// the bytes that are refused are those of the refused characters, and no
/// byte of a longer encoding is among them.
pub proof fn lemma_header_text(text: Seq<char>)
    ensures
        header_bytes_ok(encode_utf8(text)) <==> header_text_ok(text),
    decreases text.len(),
{
    if text.len() > 0 {
        let head = encode_scalar(text[0] as u32);
        let rest = text.drop_first();
        let tail = encode_utf8(rest);
        lemma_header_scalar(text[0]);
        lemma_header_text(rest);
        assert(encode_utf8(text) == head + tail);
        if header_text_ok(text) {
            assert forall|i: int| 0 <= i < rest.len() implies header_char_ok(#[trigger] rest[i]) by {
                assert(rest[i] == text[i + 1]);
            }
            assert forall|i: int| 0 <= i < (head + tail).len() implies header_byte_ok(
                #[trigger] (head + tail)[i],
            ) by {
                if i < head.len() {
                    assert((head + tail)[i] == head[i]);
                } else {
                    assert((head + tail)[i] == tail[i - head.len()]);
                }
            }
        }
        if header_bytes_ok(head + tail) {
            assert forall|i: int| 0 <= i < head.len() implies header_byte_ok(#[trigger] head[i]) by {
                assert(head[i] == (head + tail)[i]);
            }
            assert forall|i: int| 0 <= i < tail.len() implies header_byte_ok(#[trigger] tail[i]) by {
                assert(tail[i] == (head + tail)[i + head.len()]);
            }
            assert forall|i: int| 0 <= i < text.len() implies header_char_ok(#[trigger] text[i]) by {
                if i > 0 {
                    assert(text[i] == rest[i - 1]);
                }
            }
        }
    }
}

/// Two texts in a row can stand as a header value exactly when each can.
pub proof fn lemma_header_text_concat(first: Seq<char>, second: Seq<char>)
    ensures
        header_text_ok(first + second) <==> header_text_ok(first) && header_text_ok(second),
{
    let whole = first + second;
    if header_text_ok(whole) {
        assert forall|i: int| 0 <= i < first.len() implies header_char_ok(#[trigger] first[i]) by {
            assert(first[i] == whole[i]);
        }
        assert forall|i: int| 0 <= i < second.len() implies header_char_ok(#[trigger] second[i]) by {
            assert(second[i] == whole[i + first.len()]);
        }
    }
    if header_text_ok(first) && header_text_ok(second) {
        assert forall|i: int| 0 <= i < whole.len() implies header_char_ok(#[trigger] whole[i]) by {
            if i < first.len() {
                assert(whole[i] == first[i]);
            } else {
                assert(whole[i] == second[i - first.len()]);
            }
        }
    }
}

/// `reqwest::header::HeaderValue::from_str`. It accepts a string exactly when
/// every byte of it is a tab, or is 32 or more and not 127; what it refuses,
/// it refuses with an error that displays as the words of
/// [`INVALID_HEADER_VALUE`]. The header value itself is dropped: the result
/// is nothing, or the words of the refusal.
#[verifier::external_body]
pub(crate) fn check_header_value(value: &str) -> (checked: Result<(), String>)
    ensures
        checked is Ok <==> header_bytes_ok(encode_utf8(value@)),
        checked matches Err(words) ==> words@ == INVALID_HEADER_VALUE@,
{
    match reqwest::header::HeaderValue::from_str(value) {
        Ok(_) => Ok(()),
        Err(e) => Err(e.to_string()),
    }
}

/// How `reqwest::StatusCode` displays the status code `code`: the number, a
/// space, and the reason phrase of the code where it has one.
pub uninterp spec fn status_display(code: u16) -> Seq<char>;

/// The description of a status: how the status code displays, and for a
/// number that is no status code the words of [`INVALID_STATUS_CODE`].
pub open spec fn status_line(code: u16) -> Seq<char> {
    if 100 <= code < 1000 {
        status_display(code)
    } else {
        INVALID_STATUS_CODE@
    }
}

/// `reqwest::StatusCode::from_u16`, and `to_string` on what it returns. The
/// first accepts the numbers from 100 to 999 and refuses every other with an
/// error that displays as the words of [`INVALID_STATUS_CODE`]; the contract
/// claims that the display of a status code depends on its number alone.
#[verifier::external_body]
pub(crate) fn describe_status(code: u16) -> (line: String)
    ensures
        100 <= code < 1000 ==> line@ == status_display(code),
        !(100 <= code < 1000) ==> line@ == INVALID_STATUS_CODE@,
{
    match reqwest::StatusCode::from_u16(code) {
        Ok(status) => status.to_string(),
        Err(e) => e.to_string(),
    }
}

} // verus!
