//! Trusted bindings to the cryptographic primitives the verification engine
//! relies on: SHA-256 digests and P-256 ECDSA signature verification.
//!
//! The value a primitive computes is named by an uninterpreted spec function
//! of the input bytes alone; the verified engine reasons over those names.

use sha2::Digest;

use vstd::prelude::*;

verus! {

/// The SHA-256 digest (32 bytes) of a byte sequence.
pub uninterp spec fn sha256_of(data: Seq<u8>) -> Seq<u8>;

/// Relies on `sha2::Sha256`: the FIPS 180-4 SHA-256 digest, a pure function
/// of the input bytes, always 32 bytes long.
#[verifier::external_body]
pub fn sha256(data: &[u8]) -> (r: Vec<u8>)
    ensures
        r@ == sha256_of(data@),
        r@.len() == 32,
{
    sha2::Sha256::digest(data).to_vec()
}

/// Whether a byte string is a valid SEC1 encoding of a P-256 public key
/// (as accepted by `p256::ecdsa::VerifyingKey::from_sec1_bytes`).
pub uninterp spec fn p256_pubkey_ok(key: Seq<u8>) -> bool;

/// Whether a byte string is a valid ASN.1 DER encoding of a P-256 ECDSA
/// signature (as accepted by `p256::ecdsa::Signature::from_der`).
pub uninterp spec fn p256_sig_der_ok(sig: Seq<u8>) -> bool;

/// Whether a byte string is a valid fixed-width `r || s` encoding of a
/// P-256 ECDSA signature (as accepted by `p256::ecdsa::Signature::from_slice`:
/// 64 bytes, both scalars in range).
pub uninterp spec fn p256_sig_raw_ok(sig: Seq<u8>) -> bool;

/// Whether the DER-encoded signature `sig` is a valid P-256 ECDSA signature
/// by the key encoded in `key` over `SHA-256(msg)` (the hash that
/// `p256`'s `Verifier::verify` applies internally).
pub uninterp spec fn p256_verify_msg_ok(key: Seq<u8>, msg: Seq<u8>, sig: Seq<u8>) -> bool;

/// Whether the raw `r || s` signature `sig` is a valid P-256 ECDSA signature
/// by the key encoded in `key` over the already-hashed message `digest`.
pub uninterp spec fn p256_verify_prehash_ok(key: Seq<u8>, digest: Seq<u8>, sig: Seq<u8>) -> bool;

/// Outcome of a P-256 ECDSA check, naming which input was at fault.
pub enum EcdsaOutcome {
    /// The public key bytes are not a valid SEC1 point encoding.
    BadKey,
    /// The signature bytes are not a valid encoding.
    BadSignature,
    /// Key and signature decoded, but the signature does not verify.
    NotVerified,
    /// The signature verifies.
    Verified,
}

/// Relies on `p256::ecdsa::VerifyingKey::from_sec1_bytes`,
/// `p256::ecdsa::Signature::from_der`, and
/// `p256::ecdsa::signature::Verifier::verify` (which hashes the message with
/// SHA-256 and checks ECDSA over P-256): each a deterministic function of the
/// byte strings handed in, with no other inputs.
#[verifier::external_body]
pub fn p256_check_der(key: &[u8], msg: &[u8], sig: &[u8]) -> (r: EcdsaOutcome)
    ensures
        r is BadKey <==> !p256_pubkey_ok(key@),
        !(r is BadKey) ==> (r is BadSignature <==> !p256_sig_der_ok(sig@)),
        (p256_pubkey_ok(key@) && p256_sig_der_ok(sig@)) ==> (r is Verified
            <==> p256_verify_msg_ok(key@, msg@, sig@)),
        (p256_pubkey_ok(key@) && p256_sig_der_ok(sig@) && !p256_verify_msg_ok(key@, msg@, sig@))
            ==> r is NotVerified,
{
    let vk = match p256::ecdsa::VerifyingKey::from_sec1_bytes(key) {
        Ok(k) => k,
        Err(_) => return EcdsaOutcome::BadKey,
    };
    let parsed = match p256::ecdsa::Signature::from_der(sig) {
        Ok(s) => s,
        Err(_) => return EcdsaOutcome::BadSignature,
    };
    match p256::ecdsa::signature::Verifier::verify(&vk, msg, &parsed) {
        Ok(()) => EcdsaOutcome::Verified,
        Err(_) => EcdsaOutcome::NotVerified,
    }
}

/// Relies on `p256::ecdsa::VerifyingKey::from_sec1_bytes`,
/// `p256::ecdsa::Signature::from_slice`, and
/// `p256::ecdsa::signature::hazmat::PrehashVerifier::verify_prehash` (which
/// checks ECDSA over P-256 against an already-hashed message): each a
/// deterministic function of the byte strings handed in.
#[verifier::external_body]
pub fn p256_check_prehash(key: &[u8], digest: &[u8], sig: &[u8]) -> (r: EcdsaOutcome)
    ensures
        r is BadKey <==> !p256_pubkey_ok(key@),
        !(r is BadKey) ==> (r is BadSignature <==> !p256_sig_raw_ok(sig@)),
        (p256_pubkey_ok(key@) && p256_sig_raw_ok(sig@)) ==> (r is Verified
            <==> p256_verify_prehash_ok(key@, digest@, sig@)),
        (p256_pubkey_ok(key@) && p256_sig_raw_ok(sig@) && !p256_verify_prehash_ok(
            key@,
            digest@,
            sig@,
        )) ==> r is NotVerified,
{
    let vk = match p256::ecdsa::VerifyingKey::from_sec1_bytes(key) {
        Ok(k) => k,
        Err(_) => return EcdsaOutcome::BadKey,
    };
    let parsed = match p256::ecdsa::Signature::from_slice(sig) {
        Ok(s) => s,
        Err(_) => return EcdsaOutcome::BadSignature,
    };
    match p256::ecdsa::signature::hazmat::PrehashVerifier::verify_prehash(&vk, digest, &parsed) {
        Ok(()) => EcdsaOutcome::Verified,
        Err(_) => EcdsaOutcome::NotVerified,
    }
}

} // verus!
