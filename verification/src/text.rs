//! Text helpers shared by the store and by the record encodings.

use vstd::prelude::*;

verus! {

/// The text that lossy UTF-8 decoding makes of a byte sequence: the bytes'
/// own text where they are valid UTF-8, and otherwise that text with every
/// invalid stretch replaced by U+FFFD.
pub uninterp spec fn lossy_text(bytes: Seq<u8>) -> Seq<char>;

/// `String::from_utf8_lossy`, with the result owned. Valid UTF-8 decodes to
/// the text it encodes; nothing more is claimed of other input than that the
/// result depends on the bytes alone.
#[verifier::external_body]
pub(crate) fn decode_lossy(bytes: &[u8]) -> (text: String)
    ensures
        text@ == lossy_text(bytes@),
        vstd::utf8::valid_utf8(bytes@) ==> text@ == vstd::utf8::decode_utf8(bytes@),
{
    String::from_utf8_lossy(bytes).into_owned()
}

/// `str::starts_with` for a string pattern: whether `prefix` is an initial
/// part of `text`.
#[verifier::external_body]
pub(crate) fn starts_with(text: &str, prefix: &str) -> (found: bool)
    ensures
        found == prefix@.is_prefix_of(text@),
{
    text.starts_with(prefix)
}

} // verus!
