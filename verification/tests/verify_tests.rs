use base64::engine::general_purpose::URL_SAFE_NO_PAD;
use base64::Engine;
use p256::ecdsa::{signature::Signer, Signature, SigningKey};
use passkey_core::error::Error;
use passkey_core::rp;
use passkey_core::webauthn::verify::{verify_assertion, VerifyRequest};
use sha2::{Digest, Sha256};

const TEST_CONTRACT_ID: &str = "CAAAAAAAAAAAAAAAAAAAAAAAAAAAAAAAAAAAAAAAAAAAAAAAAAAABSC4";

/// Helper: build a synthetic WebAuthn assertion from a P-256 keypair.
fn build_assertion(signing_key: &SigningKey, contract_id: &str, challenge_b64: &str) -> VerifyRequest {
    let rp_id = rp::rp_id(contract_id);
    let origin = rp::expected_origin(contract_id);

    // Build authenticatorData
    let rp_hash: [u8; 32] = Sha256::digest(rp_id.as_bytes()).into();
    let flags: u8 = 0x05; // UP + UV
    let sign_count: u32 = 1;
    let mut auth_data = Vec::with_capacity(37);
    auth_data.extend_from_slice(&rp_hash);
    auth_data.push(flags);
    auth_data.extend_from_slice(&sign_count.to_be_bytes());

    // Build clientDataJSON
    let client_data_json =
        format!(r#"{{"type":"webauthn.get","challenge":"{challenge_b64}","origin":"{origin}"}}"#)
            .into_bytes();

    // Construct signed message: authData || SHA-256(clientDataJSON)
    let client_data_hash: [u8; 32] = Sha256::digest(&client_data_json).into();
    let mut message = Vec::with_capacity(auth_data.len() + 32);
    message.extend_from_slice(&auth_data);
    message.extend_from_slice(&client_data_hash);

    // Sign with p256
    let signature: Signature = signing_key.sign(&message);

    // Get public key as SEC1 uncompressed
    let verifying_key = signing_key.verifying_key();
    let pubkey_bytes = verifying_key.to_sec1_bytes();

    VerifyRequest {
        authenticator_data: URL_SAFE_NO_PAD.encode(&auth_data),
        client_data_json: URL_SAFE_NO_PAD.encode(&client_data_json),
        signature: URL_SAFE_NO_PAD.encode(signature.to_der()),
        public_key: URL_SAFE_NO_PAD.encode(&pubkey_bytes),
    }
}

fn test_key(seed: u8) -> SigningKey {
    let mut bytes = [seed; 32];
    bytes[0] = 1;
    SigningKey::from_slice(&bytes).unwrap()
}

#[test]
fn verify_valid_assertion() {
    let signing_key = test_key(0x11);
    let challenge_b64 = URL_SAFE_NO_PAD.encode(b"test-challenge-32-bytes-padding!");

    let request = build_assertion(&signing_key, TEST_CONTRACT_ID, &challenge_b64);
    let result = verify_assertion(TEST_CONTRACT_ID, &challenge_b64, &request).unwrap();
    assert!(result.verified);
}

#[test]
fn reject_wrong_challenge() {
    let signing_key = test_key(0x22);
    let challenge_b64 = URL_SAFE_NO_PAD.encode(b"test-challenge-32-bytes-padding!");

    let request = build_assertion(&signing_key, TEST_CONTRACT_ID, &challenge_b64);
    let err = verify_assertion(TEST_CONTRACT_ID, "wrong-challenge", &request).unwrap_err();
    assert!(matches!(err, Error::ChallengeMismatch));
}

#[test]
fn reject_wrong_contract_id() {
    let signing_key = test_key(0x33);
    let challenge_b64 = URL_SAFE_NO_PAD.encode(b"test-challenge-32-bytes-padding!");

    let request = build_assertion(&signing_key, TEST_CONTRACT_ID, &challenge_b64);
    let other_contract = "CC53XO53XO53XO53XO53XO53XO53XO53XO53XO53XO53XO53XO53WQD5";
    let err = verify_assertion(other_contract, &challenge_b64, &request).unwrap_err();
    assert!(matches!(err, Error::RpIdMismatch));
}

#[test]
fn verify_reject_wrong_signature() {
    let signing_key = test_key(0x44);
    let other_key = test_key(0x55);
    let challenge_b64 = URL_SAFE_NO_PAD.encode(b"test-challenge-32-bytes-padding!");

    // Build assertion with one key but provide the public key from another
    let mut request = build_assertion(&signing_key, TEST_CONTRACT_ID, &challenge_b64);
    let wrong_pubkey = other_key.verifying_key().to_sec1_bytes();
    request.public_key = URL_SAFE_NO_PAD.encode(&wrong_pubkey);

    let err = verify_assertion(TEST_CONTRACT_ID, &challenge_b64, &request).unwrap_err();
    assert!(matches!(err, Error::InvalidSignature(_)));
}

#[test]
fn reject_tampered_authenticator_data() {
    let signing_key = test_key(0x66);
    let challenge_b64 = URL_SAFE_NO_PAD.encode(b"test-challenge-32-bytes-padding!");

    let mut request = build_assertion(&signing_key, TEST_CONTRACT_ID, &challenge_b64);

    // Tamper with authenticator data (flip a byte)
    let mut auth_bytes = URL_SAFE_NO_PAD.decode(&request.authenticator_data).unwrap();
    auth_bytes[33] ^= 0xFF; // flip a signature-counter byte
    request.authenticator_data = URL_SAFE_NO_PAD.encode(&auth_bytes);

    // Should fail either on UP check or signature verification
    let result = verify_assertion(TEST_CONTRACT_ID, &challenge_b64, &request);
    assert!(result.is_err());
}

#[test]
fn reject_tampered_client_data() {
    let signing_key = test_key(0x77);
    let challenge_b64 = URL_SAFE_NO_PAD.encode(b"test-challenge-32-bytes-padding!");

    let mut request = build_assertion(&signing_key, TEST_CONTRACT_ID, &challenge_b64);

    // Flip one bit inside the client data JSON after signing: turn the
    // trailing "!" of the decoded challenge text into a different character.
    let mut cd_bytes = URL_SAFE_NO_PAD.decode(&request.client_data_json).unwrap();
    let n = cd_bytes.len();
    cd_bytes[n - 2] ^= 0x01;
    request.client_data_json = URL_SAFE_NO_PAD.encode(&cd_bytes);

    let result = verify_assertion(TEST_CONTRACT_ID, &challenge_b64, &request);
    assert!(result.is_err());
}

#[test]
fn reject_user_not_present() {
    let signing_key = test_key(0x88);
    let challenge_b64 = URL_SAFE_NO_PAD.encode(b"test-challenge-32-bytes-padding!");

    let mut request = build_assertion(&signing_key, TEST_CONTRACT_ID, &challenge_b64);
    let mut auth_bytes = URL_SAFE_NO_PAD.decode(&request.authenticator_data).unwrap();
    auth_bytes[32] = 0x00; // clear the flags byte
    request.authenticator_data = URL_SAFE_NO_PAD.encode(&auth_bytes);

    let err = verify_assertion(TEST_CONTRACT_ID, &challenge_b64, &request).unwrap_err();
    assert!(matches!(err, Error::UserNotPresent));
}

#[test]
fn reject_short_authenticator_data() {
    let signing_key = test_key(0x99);
    let challenge_b64 = URL_SAFE_NO_PAD.encode(b"test-challenge-32-bytes-padding!");

    let mut request = build_assertion(&signing_key, TEST_CONTRACT_ID, &challenge_b64);
    request.authenticator_data = URL_SAFE_NO_PAD.encode([0u8; 36]);

    let err = verify_assertion(TEST_CONTRACT_ID, &challenge_b64, &request).unwrap_err();
    assert!(matches!(err, Error::InvalidAuthenticatorData(_)));
}

#[test]
fn reject_garbage_public_key() {
    let signing_key = test_key(0xAA);
    let challenge_b64 = URL_SAFE_NO_PAD.encode(b"test-challenge-32-bytes-padding!");

    let mut request = build_assertion(&signing_key, TEST_CONTRACT_ID, &challenge_b64);
    request.public_key = URL_SAFE_NO_PAD.encode([7u8; 65]);

    let err = verify_assertion(TEST_CONTRACT_ID, &challenge_b64, &request).unwrap_err();
    assert!(matches!(err, Error::InvalidPublicKey(_)));
}

#[test]
fn ignores_trailing_public_key_bytes() {
    let signing_key = test_key(0xCC);
    let challenge_b64 = URL_SAFE_NO_PAD.encode(b"test-challenge-32-bytes-padding!");

    // A credential ID appended after the 65 key bytes must be ignored.
    let mut request = build_assertion(&signing_key, TEST_CONTRACT_ID, &challenge_b64);
    let mut pk = URL_SAFE_NO_PAD.decode(&request.public_key).unwrap();
    assert_eq!(pk.len(), 65);
    pk.extend_from_slice(b"credential-id-bytes");
    request.public_key = URL_SAFE_NO_PAD.encode(&pk);

    let result = verify_assertion(TEST_CONTRACT_ID, &challenge_b64, &request).unwrap();
    assert!(result.verified);
}

#[test]
fn reject_public_key_shorter_than_65_bytes() {
    let signing_key = test_key(0xDD);
    let challenge_b64 = URL_SAFE_NO_PAD.encode(b"test-challenge-32-bytes-padding!");

    let mut request = build_assertion(&signing_key, TEST_CONTRACT_ID, &challenge_b64);
    let pk = URL_SAFE_NO_PAD.decode(&request.public_key).unwrap();
    request.public_key = URL_SAFE_NO_PAD.encode(&pk[0..64]);

    let err = verify_assertion(TEST_CONTRACT_ID, &challenge_b64, &request).unwrap_err();
    assert!(matches!(err, Error::InvalidPublicKey(_)));
}

#[test]
fn reject_wrong_origin_in_client_data() {
    let signing_key = test_key(0xBB);
    let challenge_b64 = URL_SAFE_NO_PAD.encode(b"test-challenge-32-bytes-padding!");

    // Build an assertion whose client data carries a foreign origin.
    let rp_id = rp::rp_id(TEST_CONTRACT_ID);
    let rp_hash: [u8; 32] = Sha256::digest(rp_id.as_bytes()).into();
    let mut auth_data = Vec::with_capacity(37);
    auth_data.extend_from_slice(&rp_hash);
    auth_data.push(0x05);
    auth_data.extend_from_slice(&1u32.to_be_bytes());
    let client_data_json = format!(
        r#"{{"type":"webauthn.get","challenge":"{challenge_b64}","origin":"https://evil.example.com"}}"#
    )
    .into_bytes();
    let client_data_hash: [u8; 32] = Sha256::digest(&client_data_json).into();
    let mut message = Vec::new();
    message.extend_from_slice(&auth_data);
    message.extend_from_slice(&client_data_hash);
    let signature: Signature = signing_key.sign(&message);
    let request = VerifyRequest {
        authenticator_data: URL_SAFE_NO_PAD.encode(&auth_data),
        client_data_json: URL_SAFE_NO_PAD.encode(&client_data_json),
        signature: URL_SAFE_NO_PAD.encode(signature.to_der()),
        public_key: URL_SAFE_NO_PAD.encode(signing_key.verifying_key().to_sec1_bytes()),
    };

    let err = verify_assertion(TEST_CONTRACT_ID, &challenge_b64, &request).unwrap_err();
    assert!(matches!(err, Error::OriginMismatch { .. }));
}
