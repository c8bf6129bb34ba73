//! String extraction: from the host's text to the null-terminated bytes that
//! the native interface reads.
//!
//! The bytes are the UTF-8 encoding of the text with one null byte after it.
//! A text that holds a null character has no such form, since the native
//! side would read it as ending there: it is turned down.

use vstd::prelude::*;
use vstd::utf8::*;
use crate::error::ExtractError;
use crate::extract::text_of;
use crate::value::{Value, ValueView};

verus! {

/// The null-terminated form of `text`, if it has one.
pub open spec fn native_text(text: Seq<char>) -> Result<Seq<u8>, ExtractError> {
    if text.contains('\0') {
        Err(ExtractError::Encoding)
    } else {
        Ok(encode_utf8(text).push(0u8))
    }
}

/// The null-terminated form of the text that `v` holds.
pub open spec fn native_text_of(v: ValueView) -> Result<Seq<u8>, ExtractError> {
    match text_of(v) {
        Ok(text) => native_text(text),
        Err(e) => Err(e),
    }
}

/// The text that the native side reads from `bytes`: what stands before the
/// first null byte, decoded.
pub open spec fn text_before_nul(bytes: Seq<u8>) -> Seq<char> {
    match bytes.index_of_first(0u8) {
        Some(end) => decode_utf8(bytes.subrange(0, end)),
        None => decode_utf8(bytes),
    }
}

/// No byte of the encoding of a scalar other than zero is null.
proof fn lemma_scalar_bytes_not_null(c: u32)
    by (bit_vector)
    requires
        c != 0,
    ensures
        c <= 0x7F ==> (c & 0x7F) as u8 != 0,
        0xC0 | ((c >> 6) & 0x1F) as u8 != 0,
        0xE0 | ((c >> 12) & 0x0F) as u8 != 0,
        0xF0 | ((c >> 18) & 0x7) as u8 != 0,
        0x80 | (c & 0x3F) as u8 != 0,
        0x80 | ((c >> 6) & 0x3F) as u8 != 0,
        0x80 | ((c >> 12) & 0x3F) as u8 != 0,
{
}

/// The encoding of a character holds a null byte exactly if the character is
/// the null character.
proof fn lemma_encode_scalar_null(c: char)
    ensures
        encode_scalar(c as u32).contains(0u8) <==> c == '\0',
{
    let scalar = c as u32;
    let bytes = encode_scalar(scalar);
    char_is_scalar(c);
    if scalar == 0 {
        char_u32_cast(c, scalar);
        assert((0u32 & 0x7F) as u8 == 0u8) by (bit_vector);
        assert(bytes[0] == 0u8);
    } else {
        lemma_scalar_bytes_not_null(scalar);
        assert forall|i: int| 0 <= i < bytes.len() implies bytes[i] != 0u8 by {}
    }
}

/// The encoding of a text holds a null byte exactly if the text holds the
/// null character.
pub proof fn lemma_encoding_null(text: Seq<char>)
    ensures
        encode_utf8(text).contains(0u8) <==> text.contains('\0'),
    decreases text.len(),
{
    if text.len() > 0 {
        let head = encode_scalar(text[0] as u32);
        let rest = text.drop_first();
        let tail = encode_utf8(rest);
        lemma_encode_scalar_null(text[0]);
        lemma_encoding_null(rest);
        assert(encode_utf8(text) == head + tail);
        if text.contains('\0') {
            let at = choose|i: int| 0 <= i < text.len() && text[i] == '\0';
            if at == 0 {
                let k = choose|k: int| 0 <= k < head.len() && head[k] == 0u8;
                assert((head + tail)[k] == 0u8);
            } else {
                assert(rest[at - 1] == '\0');
                let k = choose|k: int| 0 <= k < tail.len() && tail[k] == 0u8;
                assert((head + tail)[head.len() + k] == 0u8);
            }
        }
        if encode_utf8(text).contains(0u8) {
            let k = choose|k: int| 0 <= k < (head + tail).len() && (head + tail)[k] == 0u8;
            if k < head.len() {
                assert(head[k] == 0u8);
                assert(text[0] == '\0');
            } else {
                assert(tail[k - head.len()] == 0u8);
                let at = choose|i: int| 0 <= i < rest.len() && rest[i] == '\0';
                assert(text[at + 1] == '\0');
            }
        }
    }
}

/// What the native side reads from the null-terminated form of a text is the
/// text itself: nothing is lost on the way, for any text that has such a
/// form, printable ASCII included.
pub proof fn lemma_native_text_round_trip(text: Seq<char>)
    requires
        !text.contains('\0'),
    ensures
        native_text(text) is Ok,
        text_before_nul(native_text(text)->Ok_0) == text,
{
    let encoded = encode_utf8(text);
    let bytes = encoded.push(0u8);
    lemma_encoding_null(text);
    bytes.index_of_first_ensures(0u8);
    assert(bytes[encoded.len() as int] == 0u8);
    let end = bytes.index_of_first(0u8)->0;
    if end < encoded.len() {
        assert(encoded[end] == 0u8);
    }
    assert(bytes.subrange(0, end) =~= encoded);
    encode_utf8_decode_utf8(text);
}

/// The null-terminated form of a text of ASCII characters holds one byte for
/// each character, the character's code, and the null byte after them.
pub proof fn lemma_native_text_ascii(text: Seq<char>)
    requires
        is_ascii_chars(text),
        !text.contains('\0'),
    ensures
        native_text(text) is Ok,
        native_text(text)->Ok_0.len() == text.len() + 1,
        native_text(text)->Ok_0[text.len() as int] == 0u8,
        forall|i: int|
            0 <= i < text.len() ==> #[trigger] native_text(text)->Ok_0[i] == text[i] as u8,
{
    is_ascii_chars_encode_utf8(text);
}

/// The null-terminated bytes of `text`: its UTF-8 encoding and one null byte.
/// A text that holds a null character is turned down.
pub fn c_string(text: &str) -> (r: Result<Vec<u8>, ExtractError>)
    ensures
        match r {
            Ok(bytes) => native_text(text@) == Ok::<Seq<u8>, ExtractError>(bytes@),
            Err(e) => native_text(text@) == Err::<Seq<u8>, ExtractError>(e),
        },
{
    let raw = text.as_bytes();
    let mut bytes: Vec<u8> = Vec::new();
    let mut i: usize = 0;
    while i < raw.len()
        invariant
            i <= raw.len(),
            raw@ == encode_utf8(text@),
            bytes@ == raw@.subrange(0, i as int),
            forall|j: int| 0 <= j < i ==> #[trigger] raw@[j] != 0u8,
        decreases raw.len() - i,
    {
        let byte = raw[i];
        if byte == 0 {
            proof {
                assert(raw@[i as int] == 0u8);
                lemma_encoding_null(text@);
            }
            return Err(ExtractError::Encoding);
        }
        bytes.push(byte);
        proof {
            assert(bytes@ =~= raw@.subrange(0, i + 1));
        }
        i += 1;
    }
    proof {
        assert(bytes@ =~= raw@);
        lemma_encoding_null(text@);
    }
    bytes.push(0);
    Ok(bytes)
}

impl Value {
    /// The text that this value holds, as null-terminated bytes. Anything but
    /// a text is a mismatch; a text that holds a null character is turned
    /// down as not encodable.
    pub fn to_c_string(&self) -> (r: Result<Vec<u8>, ExtractError>)
        ensures
            match r {
                Ok(bytes) => native_text_of(self@) == Ok::<Seq<u8>, ExtractError>(bytes@),
                Err(e) => native_text_of(self@) == Err::<Seq<u8>, ExtractError>(e),
            },
    {
        match self.as_str() {
            Ok(text) => c_string(text),
            Err(e) => Err(e),
        }
    }
}

} // verus!
