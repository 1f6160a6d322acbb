//! Bytes as text, for values that travel inside a page or a manifest.

use vstd::prelude::*;

verus! {

/// The standard Base64 encoding of a byte sequence, with padding.
pub uninterp spec fn base64_standard(data: Seq<u8>) -> Seq<char>;

/// Whether the encoding of `len` bytes has a length that fits a `usize`: four
/// characters for every three bytes begun.
pub open spec fn encodable(len: nat) -> bool {
    len / 3 * 4 + 4 <= usize::MAX
}

/// Encodes `data` with `base64::prelude::BASE64_STANDARD` through
/// `Engine::encode`. Believed, not proved: the result is a function of the
/// bytes alone. The input is bounded so that the length of the encoding does
/// not overflow, on which `encode` panics.
#[verifier::external_body]
pub(crate) fn base64_encode(data: &[u8]) -> (encoded: String)
    requires
        encodable(data@.len()),
    ensures
        encoded@ == base64_standard(data@),
{
    base64::Engine::encode(&base64::prelude::BASE64_STANDARD, data)
}

} // verus!
