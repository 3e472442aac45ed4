use vstd::prelude::*;
use base64::Engine;

verus! {

/// The base64 text of `bytes` in the standard alphabet with `=` padding
/// (RFC 4648 section 4), as the `base64` crate's `STANDARD` engine writes it.
pub uninterp spec fn base64_standard(bytes: Seq<u8>) -> Seq<char>;

/// The base64 text of `bytes` in the URL-safe alphabet without padding
/// (RFC 4648 section 5), as the `base64` crate's `URL_SAFE_NO_PAD` engine
/// writes it.
pub uninterp spec fn base64_url_safe(bytes: Seq<u8>) -> Seq<char>;

/// Whether the text that encodes `len` bytes can be allocated: the encoder
/// computes its length, four characters for every three bytes, and panics
/// where that overflows or cannot be allocated.
pub open spec fn encodable_len(len: nat) -> bool {
    len / 3 < isize::MAX / 4
}

/// Whether an input of that many bytes may be encoded.
pub fn encodable(len: usize) -> (r: bool)
    ensures
        r == encodable_len(len as nat),
{
    len / 3 < (isize::MAX as usize) / 4
}

/// `Engine::encode` on `base64::engine::general_purpose::STANDARD`.
#[verifier::external_body]
pub(crate) fn encode_standard(bytes: &[u8]) -> (r: String)
    requires
        encodable_len(bytes@.len()),
    ensures
        r@ == base64_standard(bytes@),
{
    base64::engine::general_purpose::STANDARD.encode(bytes)
}

/// `Engine::encode` on `base64::engine::general_purpose::URL_SAFE_NO_PAD`.
#[verifier::external_body]
pub(crate) fn encode_url_safe(bytes: &[u8]) -> (r: String)
    requires
        encodable_len(bytes@.len()),
    ensures
        r@ == base64_url_safe(bytes@),
{
    base64::engine::general_purpose::URL_SAFE_NO_PAD.encode(bytes)
}

} // verus!
