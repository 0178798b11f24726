//! Captured bytes as text.
//!
//! Captured output need not be valid UTF-8. It is decoded leniently: valid
//! input decodes to its characters, and each invalid sequence is replaced by
//! U+FFFD instead of being rejected. Decoding never fails.

use vstd::prelude::*;

verus! {

/// The text that lenient UTF-8 decoding makes of `bytes`.
pub uninterp spec fn lossy_text(bytes: Seq<u8>) -> Seq<char>;

/// The text of captured bytes: what they encode where they are valid UTF-8,
/// and their lenient decoding where they are not.
pub open spec fn text_of(bytes: Seq<u8>) -> Seq<char> {
    if vstd::utf8::valid_utf8(bytes) {
        vstd::utf8::decode_utf8(bytes)
    } else {
        lossy_text(bytes)
    }
}

/// Decodes `bytes` with `String::from_utf8_lossy`.
///
/// Trusted, not proved: the result is the lenient decoding of the bytes, a
/// function of the bytes alone, and for valid UTF-8 it is the text that the
/// bytes encode.
#[verifier::external_body]
pub(crate) fn decode_lossy(bytes: &[u8]) -> (text: String)
    ensures
        text@ == lossy_text(bytes@),
        vstd::utf8::valid_utf8(bytes@) ==> text@ == vstd::utf8::decode_utf8(bytes@),
{
    String::from_utf8_lossy(bytes).into_owned()
}

/// Decodes captured bytes. Every input has a text; none is rejected.
pub fn decode(bytes: &[u8]) -> (text: String)
    ensures
        text@ == text_of(bytes@),
{
    decode_lossy(bytes)
}

} // verus!
