//! Text recovered from bytes, and text laid out as bytes.
//!
//! Two things live here. One is the reading of a captured stream as UTF-8,
//! where a stream that is not UTF-8 is replaced by a description of what is
//! wrong with it. The other is the byte form of one text field of a message:
//! the length of its UTF-8 encoding as eight little-endian bytes, then the
//! encoding itself.

use vstd::bytes::*;
use vstd::prelude::*;
use vstd::slice::*;
use vstd::utf8::*;

verus! {

/// The description that the standard library gives of why `bytes` are not
/// UTF-8: the `Debug` rendering of the error of `String::from_utf8`.
/// Meaningful only where `bytes` are not valid UTF-8.
pub uninterp spec fn utf8_error_text(bytes: Seq<u8>) -> Seq<char>;

/// Calls `String::from_utf8` and renders its error with `Debug`.
///
/// Trusted: valid UTF-8 comes back as the text it encodes; anything else
/// comes back as the error's rendering, which depends on the bytes alone.
#[verifier::external_body]
pub(crate) fn string_from_utf8(bytes: Vec<u8>) -> (decoded: Result<String, String>)
    ensures
        valid_utf8(bytes@) ==> decoded is Ok && decoded->Ok_0@ == decode_utf8(bytes@),
        !valid_utf8(bytes@) ==> decoded is Err && decoded->Err_0@ == utf8_error_text(bytes@),
{
    match String::from_utf8(bytes) {
        Ok(text) => Ok(text),
        Err(err) => Err(format!("{:?}", err)),
    }
}

/// What a captured stream reads as: its text where it is UTF-8, and the
/// description of the decoding failure where it is not.
pub open spec fn captured_text(bytes: Seq<u8>) -> Seq<char> {
    if valid_utf8(bytes) {
        decode_utf8(bytes)
    } else {
        utf8_error_text(bytes)
    }
}

/// Picks the text of a decoding that went well and the description of one
/// that did not: a failure to decode is shown, never passed on.
pub fn shown(decoded: Result<String, String>) -> (text: String)
    ensures
        text@ == match decoded {
            Ok(decoded_text) => decoded_text@,
            Err(description) => description@,
        },
{
    match decoded {
        Ok(text) => text,
        Err(description) => description,
    }
}

/// Reads captured bytes as text.
pub fn capture_to_text(bytes: Vec<u8>) -> (text: String)
    ensures
        text@ == captured_text(bytes@),
{
    shown(string_from_utf8(bytes))
}

/// Whether a text is short enough for its length to be written in eight bytes.
pub open spec fn fits_length_prefix(text: Seq<char>) -> bool {
    encode_utf8(text).len() <= u64::MAX
}

/// The byte form of one text field.
pub open spec fn encode_text(text: Seq<char>) -> Seq<u8> {
    spec_u64_to_le_bytes(encode_utf8(text).len() as u64) + encode_utf8(text)
}

/// The text field that starts at offset `at` of `bytes`, with the offset
/// just past it; `None` where the bytes from `at` on do not hold one.
pub open spec fn text_at(bytes: Seq<u8>, at: int) -> Option<(Seq<char>, int)> {
    if at < 0 || at + 8 > bytes.len() {
        None
    } else {
        let end = at + 8 + spec_u64_from_le_bytes(bytes.subrange(at, at + 8));
        if end > bytes.len() || !valid_utf8(bytes.subrange(at + 8, end)) {
            None
        } else {
            Some((decode_utf8(bytes.subrange(at + 8, end)), end))
        }
    }
}

/// A text field written at the end of any bytes is read back from there,
/// whatever follows it.
pub proof fn lemma_text_round_trip(before: Seq<u8>, text: Seq<char>, after: Seq<u8>)
    requires
        fits_length_prefix(text),
    ensures
        text_at(before + encode_text(text) + after, before.len() as int) == Some(
            (text, (before.len() + encode_text(text).len()) as int),
        ),
        encode_text(text).len() == 8 + encode_utf8(text).len(),
{
    let body = encode_utf8(text);
    let head = spec_u64_to_le_bytes(body.len() as u64);
    let bytes = before + encode_text(text) + after;
    let at = before.len() as int;
    lemma_auto_spec_u64_to_from_le_bytes();
    assert(head.len() == 8);
    assert(bytes.subrange(at, at + 8) =~= head);
    assert(bytes.subrange(at + 8, at + 8 + body.len()) =~= body);
    encode_utf8_valid_utf8(text);
    encode_utf8_decode_utf8(text);
}

/// Appends the byte form of `text` to `out`.
pub fn put_text(out: &mut Vec<u8>, text: &str)
    ensures
        final(out)@ == old(out)@ + encode_text(text@),
        fits_length_prefix(text@),
{
    let body = text.as_bytes();
    let length: u64 = body.len() as u64;
    let mut head = u64_to_le_bytes(length);
    out.append(&mut head);
    out.extend_from_slice(body);
    assert(final(out)@ =~= old(out)@ + encode_text(text@));
}

/// Reads the text field that starts at offset `at`.
pub fn take_text(bytes: &[u8], at: usize) -> (taken: Option<(String, usize)>)
    ensures
        match taken {
            Some((text, end)) => text_at(bytes@, at as int) == Some((text@, end as int)),
            None => text_at(bytes@, at as int) is None,
        },
{
    if at > bytes.len() || bytes.len() - at < 8 {
        return None;
    }
    let length = u64_from_le_bytes(slice_subrange(bytes, at, at + 8));
    let room = bytes.len() - at - 8;
    if length > room as u64 {
        return None;
    }
    let start = at + 8;
    let end = start + length as usize;
    match string_from_utf8(slice_to_vec(slice_subrange(bytes, start, end))) {
        Ok(text) => Some((text, end)),
        Err(_) => None,
    }
}

} // verus!
