//! Small helpers on strings and bytes that the parsers of this crate share.

use vstd::prelude::*;
use vstd::string::StringSliceAdditionalSpecFns;

verus! {

/// Equality of two string slices.
///
/// Trusted: calls `str::eq` of the standard library, which compares the two
/// slices byte for byte, so the result is `true` exactly when both hold the
/// same sequence of characters.
#[verifier::external_body]
pub(crate) fn str_eq(a: &str, b: &str) -> (same: bool)
    ensures
        same == (a@ == b@),
{
    a == b
}

/// The text that a byte slice encodes, if it is well-formed UTF-8.
///
/// Trusted: calls `std::str::from_utf8`, which succeeds exactly on well-formed
/// UTF-8 and then returns a string slice over the very same bytes.
#[verifier::external_body]
pub(crate) fn utf8_text(bytes: &[u8]) -> (text: Option<&str>)
    ensures
        text is Some <==> vstd::utf8::valid_utf8(bytes@),
        text matches Some(t) ==> t.spec_bytes() == bytes@,
{
    std::str::from_utf8(bytes).ok()
}

/// The text that `bytes` encode, if they are well-formed UTF-8.
pub fn text_of(bytes: &[u8]) -> (text: Option<&str>)
    ensures
        text is Some <==> vstd::utf8::valid_utf8(bytes@),
        text matches Some(t) ==> t@ == vstd::utf8::decode_utf8(bytes@),
{
    let text = utf8_text(bytes);
    proof {
        if let Some(t) = text {
            vstd::utf8::encode_utf8_decode_utf8(t@);
        }
    }
    text
}

} // verus!
