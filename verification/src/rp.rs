//! Relying-party identity derived from the account identifier: the RP ID
//! string, its SHA-256 hash (compared against authenticator data), and the
//! expected origin URL.

use vstd::prelude::*;
use vstd::string::StringSliceAdditionalSpecFns;
use vstd::utf8::encode_utf8;

use crate::crypto::sha256;
use crate::crypto::sha256_of;
use crate::text::copy_32;

verus! {

/// The relying-party ID for an account: `<contract_id>.sorobancontracts.com`.
pub open spec fn rp_id_chars(contract_id: Seq<char>) -> Seq<char> {
    contract_id + "."@ + "sorobancontracts.com"@
}

/// The expected WebAuthn origin for an account: `https://<rp id>`.
pub open spec fn expected_origin_chars(contract_id: Seq<char>) -> Seq<char> {
    "https://"@ + rp_id_chars(contract_id)
}

/// The SHA-256 hash of the RP ID's UTF-8 bytes, as authenticators embed it.
pub open spec fn rp_id_hash_spec(contract_id: Seq<char>) -> Seq<u8> {
    sha256_of(encode_utf8(rp_id_chars(contract_id)))
}

/// Builds the WebAuthn relying-party ID for a contract ID.
pub fn rp_id(contract_id: &str) -> (r: String)
    ensures
        r@ == rp_id_chars(contract_id@),
{
    let mut s = String::from_str(contract_id);
    s.append(".");
    s.append("sorobancontracts.com");
    s
}

/// Computes the SHA-256 hash of the RP ID, for comparison against the
/// rpIdHash field of authenticator data.
pub fn rp_id_hash(contract_id: &str) -> (r: [u8; 32])
    ensures
        r@ == rp_id_hash_spec(contract_id@),
        r@.len() == 32,
{
    let id = rp_id(contract_id);
    let digest = sha256(id.as_str().as_bytes());
    let out = copy_32(digest.as_slice());
    proof {
        assert(digest@.subrange(0, 32) =~= digest@);
    }
    out
}

/// Builds the expected origin URL for a contract ID.
pub fn expected_origin(contract_id: &str) -> (r: String)
    ensures
        r@ == expected_origin_chars(contract_id@),
{
    let mut s = String::from_str("https://");
    let id = rp_id(contract_id);
    s.append(id.as_str());
    s
}

} // verus!
