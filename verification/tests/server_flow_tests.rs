use base64::engine::general_purpose::URL_SAFE_NO_PAD;
use base64::Engine;
use p256::ecdsa::{signature::Signer, Signature, SigningKey};
use passkey_core::challenge::Challenge;
use passkey_core::error::Error;
use passkey_core::rp;
use passkey_core::server::{handle_verify, issue_challenge};
use passkey_core::storage::InMemoryStore;
use passkey_core::webauthn::verify::VerifyRequest;
use sha2::{Digest, Sha256};

const TEST_CONTRACT_ID: &str = "CAAAAAAAAAAAAAAAAAAAAAAAAAAAAAAAAAAAAAAAAAAAAAAAAAAABSC4";

fn build_server_assertion(
    signing_key: &SigningKey,
    contract_id: &str,
    challenge_b64: &str,
) -> VerifyRequest {
    let rp_id = rp::rp_id(contract_id);
    let origin = rp::expected_origin(contract_id);

    // authenticatorData: rpIdHash (32) || flags (1) || signCount (4)
    let rp_hash: [u8; 32] = Sha256::digest(rp_id.as_bytes()).into();
    let flags: u8 = 0x05; // UP + UV
    let sign_count: u32 = 1;
    let mut auth_data = Vec::with_capacity(37);
    auth_data.extend_from_slice(&rp_hash);
    auth_data.push(flags);
    auth_data.extend_from_slice(&sign_count.to_be_bytes());

    // clientDataJSON
    let client_data_json =
        format!(r#"{{"type":"webauthn.get","challenge":"{challenge_b64}","origin":"{origin}"}}"#)
            .into_bytes();

    // signed message = authData || SHA-256(clientDataJSON)
    let client_data_hash: [u8; 32] = Sha256::digest(&client_data_json).into();
    let mut message = Vec::with_capacity(auth_data.len() + 32);
    message.extend_from_slice(&auth_data);
    message.extend_from_slice(&client_data_hash);

    // P-256 ECDSA sign (RFC 6979 deterministic)
    let signature: Signature = signing_key.sign(&message);

    let pubkey_bytes = signing_key.verifying_key().to_sec1_bytes();

    VerifyRequest {
        authenticator_data: URL_SAFE_NO_PAD.encode(&auth_data),
        client_data_json: URL_SAFE_NO_PAD.encode(&client_data_json),
        signature: URL_SAFE_NO_PAD.encode(signature.to_der()),
        public_key: URL_SAFE_NO_PAD.encode(&pubkey_bytes),
    }
}

fn test_key(seed: u8) -> SigningKey {
    let mut bytes = [seed; 32];
    bytes[0] = 1;
    SigningKey::from_slice(&bytes).unwrap()
}

fn now() -> u64 {
    std::time::SystemTime::now()
        .duration_since(std::time::UNIX_EPOCH)
        .unwrap()
        .as_secs()
}

#[test]
fn full_challenge_verify_flow() {
    let mut store = InMemoryStore::new();
    let signing_key = test_key(0x21);

    // Step 1: request a challenge
    let challenge = issue_challenge(&mut store, TEST_CONTRACT_ID).unwrap();
    assert_eq!(
        rp::rp_id(TEST_CONTRACT_ID),
        format!("{TEST_CONTRACT_ID}.sorobancontracts.com")
    );

    // Step 2: build a WebAuthn assertion
    let assertion = build_server_assertion(&signing_key, TEST_CONTRACT_ID, &challenge.challenge);

    // Step 3: verify the assertion
    let response = handle_verify(
        &mut store,
        TEST_CONTRACT_ID,
        &challenge.challenge_id,
        &assertion,
        now(),
    )
    .unwrap();
    assert!(response.verified);
}

#[test]
fn challenge_is_one_time_use() {
    let mut store = InMemoryStore::new();
    let signing_key = test_key(0x22);

    let challenge = issue_challenge(&mut store, TEST_CONTRACT_ID).unwrap();
    let assertion = build_server_assertion(&signing_key, TEST_CONTRACT_ID, &challenge.challenge);

    // First verify succeeds
    let first = handle_verify(
        &mut store,
        TEST_CONTRACT_ID,
        &challenge.challenge_id,
        &assertion,
        now(),
    )
    .unwrap();
    assert!(first.verified);

    // Replay with the same challenge_id → not found (already consumed)
    let second = handle_verify(
        &mut store,
        TEST_CONTRACT_ID,
        &challenge.challenge_id,
        &assertion,
        now(),
    )
    .unwrap_err();
    assert!(matches!(second, Error::ChallengeNotFound));
    assert_eq!(second.http_status(), 404);
}

#[test]
fn consumed_even_when_verification_fails() {
    let mut store = InMemoryStore::new();
    let signing_key = test_key(0x23);
    let wrong_key = test_key(0x24);

    let challenge = issue_challenge(&mut store, TEST_CONTRACT_ID).unwrap();
    let mut assertion =
        build_server_assertion(&signing_key, TEST_CONTRACT_ID, &challenge.challenge);
    assertion.public_key = URL_SAFE_NO_PAD.encode(wrong_key.verifying_key().to_sec1_bytes());

    // First attempt fails on the signature, but still consumes the challenge.
    let first = handle_verify(
        &mut store,
        TEST_CONTRACT_ID,
        &challenge.challenge_id,
        &assertion,
        now(),
    )
    .unwrap_err();
    assert!(matches!(first, Error::InvalidSignature(_)));

    let second = handle_verify(
        &mut store,
        TEST_CONTRACT_ID,
        &challenge.challenge_id,
        &assertion,
        now(),
    )
    .unwrap_err();
    assert!(matches!(second, Error::ChallengeNotFound));
}

#[test]
fn reject_invalid_contract_id() {
    let mut store = InMemoryStore::new();

    // G-addresses are rejected
    let err = issue_challenge(
        &mut store,
        "GAAAAAAAAAAAAAAAAAAAAAAAAAAAAAAAAAAAAAAAAAAAAAAAAAAAAWHF",
    )
    .unwrap_err();
    assert!(matches!(err, Error::InvalidContractId(_)));
    assert_eq!(err.http_status(), 400);
}

#[test]
fn server_flow_reject_wrong_signature() {
    let mut store = InMemoryStore::new();
    let signing_key = test_key(0x25);
    let wrong_key = test_key(0x26);

    let challenge = issue_challenge(&mut store, TEST_CONTRACT_ID).unwrap();

    // Sign with signing_key but provide wrong_key's public key
    let mut assertion =
        build_server_assertion(&signing_key, TEST_CONTRACT_ID, &challenge.challenge);
    let wrong_pubkey = wrong_key.verifying_key().to_sec1_bytes();
    assertion.public_key = URL_SAFE_NO_PAD.encode(&wrong_pubkey);

    let err = handle_verify(
        &mut store,
        TEST_CONTRACT_ID,
        &challenge.challenge_id,
        &assertion,
        now(),
    )
    .unwrap_err();
    // An unauthorized-class signature error, distinguishable from bad input.
    assert_eq!(err.http_status(), 401);
    assert_ne!(err.http_status(), 400);
}

#[test]
fn expired_challenge_is_rejected() {
    let mut store = InMemoryStore::new();
    let signing_key = test_key(0x27);

    let issued = issue_challenge(&mut store, TEST_CONTRACT_ID).unwrap();

    // Overwrite the stored record with one created beyond the TTL, still
    // physically present in the store.
    let old = Challenge {
        challenge: issued.challenge.clone(),
        challenge_id: issued.challenge_id.clone(),
        contract_id: issued.contract_id.clone(),
        created_at: issued.created_at - 600,
    };
    store.store(&old.storage_key(), &old).unwrap();

    let assertion = build_server_assertion(&signing_key, TEST_CONTRACT_ID, &old.challenge);
    let err = handle_verify(
        &mut store,
        TEST_CONTRACT_ID,
        &old.challenge_id,
        &assertion,
        now(),
    )
    .unwrap_err();
    assert!(matches!(err, Error::ChallengeExpired));
    assert_eq!(err.http_status(), 410);
}
