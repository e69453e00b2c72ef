//! Trusted binding to base64url (URL-safe alphabet, no padding), the text
//! encoding of all binary fields at the library's boundary.

use vstd::prelude::*;

verus! {

/// The base64url (no padding) encoding of a byte sequence.
pub uninterp spec fn b64url_of(data: Seq<u8>) -> Seq<char>;

/// The byte sequence a base64url (no padding) text decodes to, or `None`
/// for text that is not such an encoding.
pub uninterp spec fn b64url_decoded(s: Seq<char>) -> Option<Seq<u8>>;

/// Relies on `base64::engine::general_purpose::URL_SAFE_NO_PAD` and
/// `base64::Engine::encode`: the RFC 4648 URL-safe encoding without padding,
/// a pure function of the input bytes; `decode` is documented as its inverse,
/// so the result decodes back to the input.
#[verifier::external_body]
pub fn b64url_encode(data: &[u8]) -> (r: String)
    requires
        data@.len() <= 0x1000_0000,
    ensures
        r@ == b64url_of(data@),
        b64url_decoded(r@) == Some(data@),
{
    base64::Engine::encode(&base64::engine::general_purpose::URL_SAFE_NO_PAD, data)
}

/// Relies on `base64::engine::general_purpose::URL_SAFE_NO_PAD` and
/// `base64::Engine::decode`: accepts exactly the no-padding URL-safe
/// encodings and returns the encoded bytes, deterministically in the input;
/// the error text is the crate's own message.
#[verifier::external_body]
pub fn b64url_decode(s: &str) -> (r: Result<Vec<u8>, String>)
    ensures
        match r {
            Ok(v) => b64url_decoded(s@) == Some(v@),
            Err(_) => b64url_decoded(s@) is None,
        },
{
    match base64::Engine::decode(&base64::engine::general_purpose::URL_SAFE_NO_PAD, s) {
        Ok(v) => Ok(v),
        Err(e) => Err(format!("{e}")),
    }
}

} // verus!
