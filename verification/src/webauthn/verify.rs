//! The assertion verification engine: decodes the wire fields, parses and
//! checks authenticator data and client data, reconstructs the signed
//! message, and verifies the P-256 ECDSA signature.

use vstd::prelude::*;
use vstd::string::StringSliceAdditionalSpecFns;

use crate::base64url::b64url_decode;
use crate::base64url::b64url_decoded;
use crate::crypto::p256_check_der;
use crate::crypto::p256_pubkey_ok;
use crate::crypto::p256_sig_der_ok;
use crate::crypto::p256_verify_msg_ok;
use crate::crypto::sha256;
use crate::crypto::sha256_of;
use crate::crypto::EcdsaOutcome;
use crate::error::Error;
use crate::rp::expected_origin;
use crate::rp::expected_origin_chars;
use crate::rp::rp_id_hash;
use crate::rp::rp_id_hash_spec;
use crate::text::bytes_eq;
use crate::webauthn::authenticator::AuthenticatorData;
use crate::webauthn::client_data::client_data_spec;
use crate::webauthn::client_data::ClientData;

verus! {

/// Request payload for WebAuthn assertion verification.
#[derive(Debug)]
pub struct VerifyRequest {
    /// Raw authenticatorData bytes, base64url-encoded.
    pub authenticator_data: String,
    /// Raw clientDataJSON bytes, base64url-encoded.
    pub client_data_json: String,
    /// DER-encoded ECDSA signature, base64url-encoded.
    pub signature: String,
    /// SEC1-encoded (uncompressed, 65 bytes) P-256 public key,
    /// base64url-encoded. The client provides the public key directly.
    pub public_key: String,
}

/// Result of a successful verification.
#[derive(Debug)]
pub struct VerifyResponse {
    pub verified: bool,
}

/// The spec-level view of a request's four text fields.
pub struct VerifyRequestV {
    pub authenticator_data: Seq<char>,
    pub client_data_json: Seq<char>,
    pub signature: Seq<char>,
    pub public_key: Seq<char>,
}

impl VerifyRequest {
    /// The spec-level view of the request.
    pub open spec fn view_fields(self) -> VerifyRequestV {
        VerifyRequestV {
            authenticator_data: self.authenticator_data@,
            client_data_json: self.client_data_json@,
            signature: self.signature@,
            public_key: self.public_key@,
        }
    }
}

/// The outcome the verification engine must reach, by kind. Each failing
/// kind corresponds to one error variant of the engine.
pub enum VerifyDecision {
    /// The assertion is valid: every check below passed.
    Accepted,
    /// Authenticator data did not decode, or is shorter than 37 bytes.
    BadAuthenticatorData,
    /// Client data did not decode, is not a well-formed client-data object,
    /// or its ceremony type is not the authentication literal.
    BadClientData,
    /// The embedded relying-party hash differs from the account's.
    RpMismatch,
    /// The user-present flag is clear.
    UserMissing,
    /// The client data's challenge differs from the expected one.
    WrongChallenge,
    /// The client data's origin differs from the account's.
    WrongOrigin,
    /// The signature did not decode, or did not verify under the given key.
    BadSignature,
    /// The public key did not decode, holds fewer than 65 bytes, or its
    /// first 65 bytes are not a valid SEC1 point encoding.
    BadPublicKey,
}

/// The decision the off-chain engine reaches, step by step in the order the
/// checks run: decode the four fields, parse authenticator data, compare the
/// relying-party hash, require user presence, parse and validate client
/// data, then check the signature over
/// `authenticatorData || SHA-256(clientDataJSON)`. The public key is
/// exactly the first 65 decoded bytes; anything after them (such as a
/// credential ID) is ignored.
pub open spec fn verify_decision(
    contract_id: Seq<char>,
    expected_challenge_b64: Seq<char>,
    req: VerifyRequestV,
) -> VerifyDecision {
    match b64url_decoded(req.authenticator_data) {
        None => VerifyDecision::BadAuthenticatorData,
        Some(auth) => match b64url_decoded(req.client_data_json) {
            None => VerifyDecision::BadClientData,
            Some(cd) => match b64url_decoded(req.signature) {
                None => VerifyDecision::BadSignature,
                Some(sig) => match b64url_decoded(req.public_key) {
                    None => VerifyDecision::BadPublicKey,
                    Some(pk) => if auth.len() < 37 {
                        VerifyDecision::BadAuthenticatorData
                    } else if auth.subrange(0, 32) != rp_id_hash_spec(contract_id) {
                        VerifyDecision::RpMismatch
                    } else if auth[32] & 0x01 == 0 {
                        VerifyDecision::UserMissing
                    } else {
                        match client_data_spec(cd) {
                            None => VerifyDecision::BadClientData,
                            Some(c) => if c.typ != "webauthn.get"@ {
                                VerifyDecision::BadClientData
                            } else if c.challenge != expected_challenge_b64 {
                                VerifyDecision::WrongChallenge
                            } else if c.origin != expected_origin_chars(contract_id) {
                                VerifyDecision::WrongOrigin
                            } else if pk.len() < 65 || !p256_pubkey_ok(pk.subrange(0, 65)) {
                                VerifyDecision::BadPublicKey
                            } else if !p256_sig_der_ok(sig) {
                                VerifyDecision::BadSignature
                            } else if p256_verify_msg_ok(
                                pk.subrange(0, 65),
                                auth + sha256_of(cd),
                                sig,
                            ) {
                                VerifyDecision::Accepted
                            } else {
                                VerifyDecision::BadSignature
                            },
                        }
                    },
                },
            },
        },
    }
}

/// An assertion accepted against challenge `a` fails against any other
/// challenge `b`, and with "challenge mismatch" specifically: the checks
/// before the challenge comparison do not depend on the expected challenge,
/// and acceptance against `a` pins the client data's challenge to `a`.
pub proof fn law_challenge_binding(
    contract_id: Seq<char>,
    a: Seq<char>,
    b: Seq<char>,
    req: VerifyRequestV,
)
    requires
        verify_decision(contract_id, a, req) is Accepted,
        a != b,
    ensures
        verify_decision(contract_id, b, req) is WrongChallenge,
{
}

/// An assertion is accepted only if the P-256 signature check succeeded for
/// exactly the supplied key (the first 65 decoded public-key bytes), signed
/// message, and signature — a body that skips the curve check cannot return
/// `verified`. Which keys make the check fail is the curve's affair and is
/// exercised by tests.
pub proof fn law_acceptance_needs_signature(
    contract_id: Seq<char>,
    expected_challenge_b64: Seq<char>,
    req: VerifyRequestV,
)
    requires
        verify_decision(contract_id, expected_challenge_b64, req) is Accepted,
    ensures
        ({
            let auth = b64url_decoded(req.authenticator_data).unwrap();
            let cd = b64url_decoded(req.client_data_json).unwrap();
            let sig = b64url_decoded(req.signature).unwrap();
            let pk = b64url_decoded(req.public_key).unwrap();
            pk.len() >= 65 && p256_verify_msg_ok(pk.subrange(0, 65), auth + sha256_of(cd), sig)
        }),
{
}

/// Authenticator data shorter than 37 bytes is never accepted, whatever the
/// other fields hold; and when the other three fields decode — so that no
/// earlier decoding error takes precedence — the failure is specifically
/// the authenticator-data one.
pub proof fn law_short_authenticator_data_rejected(
    contract_id: Seq<char>,
    expected_challenge_b64: Seq<char>,
    req: VerifyRequestV,
)
    requires
        b64url_decoded(req.authenticator_data) matches Some(a) && a.len() < 37,
    ensures
        !(verify_decision(contract_id, expected_challenge_b64, req) is Accepted),
        (b64url_decoded(req.client_data_json) is Some && b64url_decoded(req.signature) is Some
            && b64url_decoded(req.public_key) is Some) ==> verify_decision(
            contract_id,
            expected_challenge_b64,
            req,
        ) is BadAuthenticatorData,
{
}

/// How an engine result corresponds to a decision: `Ok` exactly on
/// acceptance, and otherwise the error variant named by the decision.
pub open spec fn outcome_matches(
    contract_id: Seq<char>,
    r: Result<VerifyResponse, Error>,
    d: VerifyDecision,
) -> bool {
    &&& r is Ok <==> d is Accepted
    &&& r matches Ok(resp) ==> resp.verified
    &&& d is BadAuthenticatorData ==> (r matches Err(e) && e is InvalidAuthenticatorData)
    &&& d is BadClientData ==> (r matches Err(e) && e is InvalidClientData)
    &&& d is RpMismatch ==> r == Err::<VerifyResponse, Error>(Error::RpIdMismatch)
    &&& d is UserMissing ==> r == Err::<VerifyResponse, Error>(Error::UserNotPresent)
    &&& d is WrongChallenge ==> r == Err::<VerifyResponse, Error>(Error::ChallengeMismatch)
    &&& d is WrongOrigin ==> (r matches Err(Error::OriginMismatch { expected, actual })
        && expected@ == expected_origin_chars(contract_id))
    &&& d is BadSignature ==> (r matches Err(e) && e is InvalidSignature)
    &&& d is BadPublicKey ==> (r matches Err(e) && e is InvalidPublicKey)
}

/// Verifies a WebAuthn assertion for an account.
///
/// Returns `Ok` exactly when `verify_decision` accepts, and otherwise the
/// error variant named by the decision.
pub fn verify_assertion(
    contract_id: &str,
    expected_challenge_b64: &str,
    request: &VerifyRequest,
) -> (r: Result<VerifyResponse, Error>)
    ensures
        outcome_matches(
            contract_id@,
            r,
            verify_decision(contract_id@, expected_challenge_b64@, request.view_fields()),
        ),
{
    // Decode all base64url fields.
    let auth_data_bytes = match b64url_decode(request.authenticator_data.as_str()) {
        Ok(v) => v,
        Err(m) => {
            return Err(Error::InvalidAuthenticatorData(m));
        },
    };
    let client_data_bytes = match b64url_decode(request.client_data_json.as_str()) {
        Ok(v) => v,
        Err(m) => {
            return Err(Error::InvalidClientData(m));
        },
    };
    let signature_bytes = match b64url_decode(request.signature.as_str()) {
        Ok(v) => v,
        Err(m) => {
            return Err(Error::InvalidSignature(m));
        },
    };
    let pubkey_bytes = match b64url_decode(request.public_key.as_str()) {
        Ok(v) => v,
        Err(m) => {
            return Err(Error::InvalidPublicKey(m));
        },
    };

    // Parse authenticator data.
    let auth_data = match AuthenticatorData::parse(auth_data_bytes.as_slice()) {
        Ok(a) => a,
        Err(e) => {
            return Err(e);
        },
    };

    // The embedded relying-party hash must match the account's.
    let expected_rp_hash = rp_id_hash(contract_id);
    if !bytes_eq(auth_data.rp_id_hash.as_slice(), expected_rp_hash.as_slice()) {
        return Err(Error::RpIdMismatch);
    }

    // The authenticator must attest user presence.
    if !auth_data.user_present() {
        return Err(Error::UserNotPresent);
    }

    // Parse and validate client data.
    let client_data = match ClientData::parse(client_data_bytes.as_slice()) {
        Ok(c) => c,
        Err(e) => {
            return Err(e);
        },
    };
    let origin = expected_origin(contract_id);
    match client_data.validate(expected_challenge_b64, origin.as_str()) {
        Ok(()) => {},
        Err(e) => {
            return Err(e);
        },
    }

    // The public key is exactly the first 65 decoded bytes (a SEC1
    // uncompressed point); trailing bytes such as a credential ID are
    // ignored.
    if pubkey_bytes.len() < 65 {
        return Err(Error::InvalidPublicKey(String::from_str("fewer than 65 bytes")));
    }
    let pubkey_all = pubkey_bytes.as_slice();
    let pubkey = &pubkey_all[0..65];

    // The signed message: authenticatorData || SHA-256(clientDataJSON),
    // over the raw decoded bytes.
    let client_data_hash = sha256(client_data_bytes.as_slice());
    let mut signed_message: Vec<u8> = Vec::new();
    signed_message.extend_from_slice(auth_data_bytes.as_slice());
    signed_message.extend_from_slice(client_data_hash.as_slice());
    proof {
        assert(signed_message@ =~= auth_data_bytes@ + sha256_of(client_data_bytes@));
    }

    // Verify the P-256 ECDSA signature; the primitive hashes the message
    // with SHA-256 itself.
    match p256_check_der(pubkey, signed_message.as_slice(), signature_bytes.as_slice()) {
        EcdsaOutcome::Verified => Ok(VerifyResponse { verified: true }),
        EcdsaOutcome::BadKey => Err(
            Error::InvalidPublicKey(String::from_str("not a valid SEC1 public key")),
        ),
        EcdsaOutcome::BadSignature => Err(
            Error::InvalidSignature(String::from_str("not a valid DER signature")),
        ),
        EcdsaOutcome::NotVerified => Err(
            Error::InvalidSignature(String::from_str("signature verification failed")),
        ),
    }
}

} // verus!
