//! The on-chain verification entry point: the same parsing and digest core
//! as the off-chain engine, under the deliberately different policy of the
//! contract environment — the caller supplies the exact 32-byte signature
//! payload whose base64url encoding must be the client data's challenge, the
//! signature comes as fixed-width `r || s`, the digest is computed before
//! the curve check, and neither the relying-party hash nor the origin is
//! compared, since the invocation context already binds the account.

use vstd::prelude::*;

use crate::base64url::b64url_encode;
use crate::base64url::b64url_of;
use crate::crypto::p256_check_prehash;
use crate::crypto::p256_pubkey_ok;
use crate::crypto::p256_sig_raw_ok;
use crate::crypto::p256_verify_prehash_ok;
use crate::crypto::sha256;
use crate::crypto::sha256_of;
use crate::crypto::EcdsaOutcome;
use crate::text::str_eq;
use crate::webauthn::authenticator::AuthenticatorData;
use crate::webauthn::client_data::client_data_spec;
use crate::webauthn::client_data::ClientData;

verus! {

/// Whether an assertion passes on-chain verification: authenticator data of
/// at least 37 bytes with the user-present flag set, a well-formed
/// client-data object of the authentication ceremony whose challenge is the
/// base64url encoding of the signature payload, and a valid raw P-256
/// signature by the first 65 key bytes over
/// `SHA-256(authenticatorData || SHA-256(clientDataJSON))`.
pub open spec fn onchain_accepts(
    signature_payload: Seq<u8>,
    key_data: Seq<u8>,
    signature: Seq<u8>,
    authenticator_data: Seq<u8>,
    client_data: Seq<u8>,
) -> bool {
    &&& authenticator_data.len() >= 37
    &&& authenticator_data[32] & 0x01 != 0
    &&& match client_data_spec(client_data) {
        Some(c) => c.typ == "webauthn.get"@ && c.challenge == b64url_of(signature_payload),
        None => false,
    }
    &&& p256_pubkey_ok(key_data.subrange(0, 65))
    &&& p256_sig_raw_ok(signature)
    &&& p256_verify_prehash_ok(
        key_data.subrange(0, 65),
        sha256_of(authenticator_data + sha256_of(client_data)),
        signature,
    )
}

/// The stateless verifier a contract exposes to the account framework.
pub struct WebAuthnVerifier;

impl WebAuthnVerifier {
    /// Verifies a WebAuthn assertion inside a single synchronous invocation.
    ///
    /// `signature_payload` is the 32-byte hash the invocation context binds;
    /// `key_data` holds a 65-byte SEC1 public key, with any trailing bytes
    /// (such as a credential ID) ignored; `signature` is the raw 64-byte
    /// `r || s` encoding. Returns true exactly when `onchain_accepts` does.
    pub fn verify(
        signature_payload: &[u8],
        key_data: &[u8],
        signature: &[u8],
        authenticator_data: &[u8],
        client_data: &[u8],
    ) -> (r: bool)
        requires
            signature_payload@.len() == 32,
            key_data@.len() >= 65,
        ensures
            r == onchain_accepts(
                signature_payload@,
                key_data@,
                signature@,
                authenticator_data@,
                client_data@,
            ),
    {
        let auth = match AuthenticatorData::parse(authenticator_data) {
            Ok(a) => a,
            Err(_) => {
                return false;
            },
        };
        if !auth.user_present() {
            return false;
        }

        let cd = match ClientData::parse(client_data) {
            Ok(c) => c,
            Err(_) => {
                return false;
            },
        };
        if !str_eq(cd.typ.as_str(), "webauthn.get") {
            return false;
        }
        let expected_challenge = b64url_encode(signature_payload);
        if !str_eq(cd.challenge.as_str(), expected_challenge.as_str()) {
            return false;
        }

        let client_data_hash = sha256(client_data);
        let mut message: Vec<u8> = Vec::new();
        message.extend_from_slice(authenticator_data);
        message.extend_from_slice(client_data_hash.as_slice());
        proof {
            assert(message@ =~= authenticator_data@ + sha256_of(client_data@));
        }
        let digest = sha256(message.as_slice());

        let key = &key_data[0..65];
        match p256_check_prehash(key, digest.as_slice(), signature) {
            EcdsaOutcome::Verified => true,
            EcdsaOutcome::BadKey => false,
            EcdsaOutcome::BadSignature => false,
            EcdsaOutcome::NotVerified => false,
        }
    }
}

} // verus!
