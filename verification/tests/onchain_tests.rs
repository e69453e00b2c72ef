use base64::engine::general_purpose::URL_SAFE_NO_PAD;
use base64::Engine;
use p256::ecdsa::signature::hazmat::PrehashSigner;
use p256::ecdsa::{Signature, SigningKey};
use passkey_core::onchain::WebAuthnVerifier;
use sha2::{Digest, Sha256};

/// On-chain WebAuthn assertion components, as plain bytes.
struct ContractAssertion {
    authenticator_data: Vec<u8>,
    client_data: Vec<u8>,
    signature: [u8; 64],
    key_data: Vec<u8>,
}

/// Build a synthetic WebAuthn assertion for on-chain verification.
///
/// The `signature_payload` is the 32-byte hash the auth framework would
/// produce. The challenge in clientDataJSON is its base64url encoding.
fn build_contract_assertion(signing_key: &SigningKey, signature_payload: &[u8; 32]) -> ContractAssertion {
    // Challenge = base64url(signature_payload)
    let challenge_b64 = URL_SAFE_NO_PAD.encode(signature_payload);

    // authenticatorData: 37 bytes minimum (rpIdHash zeroed — the on-chain
    // verifier skips rpIdHash validation).
    // flags = UP(0x01) | UV(0x04) | BE(0x08) | BS(0x10) = 0x1D
    let mut authenticator_data = vec![0u8; 37];
    authenticator_data[32] = 0x1D;

    // clientDataJSON
    let client_data = format!(
        r#"{{"type":"webauthn.get","challenge":"{challenge_b64}","origin":"https://example.com","crossOrigin":false}}"#
    )
    .into_bytes();

    // message digest = SHA-256(authData || SHA-256(clientData))
    let client_data_hash: [u8; 32] = Sha256::digest(&client_data).into();
    let mut msg = authenticator_data.clone();
    msg.extend_from_slice(&client_data_hash);
    let digest: [u8; 32] = Sha256::digest(&msg).into();

    // Prehash sign (we already have the final hash)
    let sig: Signature = signing_key.sign_prehash(&digest).unwrap();
    let sig_normalized = sig.normalize_s().unwrap_or(sig);
    let mut signature = [0u8; 64];
    signature.copy_from_slice(&sig_normalized.to_bytes());

    // SEC1 uncompressed public key (65 bytes)
    let key_data = signing_key.verifying_key().to_sec1_bytes().to_vec();

    ContractAssertion { authenticator_data, client_data, signature, key_data }
}

fn test_key(seed: u8) -> SigningKey {
    let mut bytes = [seed; 32];
    bytes[0] = 1;
    SigningKey::from_slice(&bytes).unwrap()
}

#[test]
fn verify_webauthn_assertion_on_chain() {
    let signing_key = test_key(0x0A);

    // Simulate a 32-byte signature payload (the transaction hash the auth
    // framework would produce)
    let payload_bytes: [u8; 32] = [
        0x4b, 0xb7, 0xa8, 0xb9, 0x96, 0x09, 0xb0, 0xb8, 0xb1, 0xd5, 0x34, 0x69, 0x4b, 0xb1, 0xf3,
        0x1f, 0x12, 0x91, 0x38, 0xa2, 0xf2, 0xa1, 0x1f, 0x8e, 0x87, 0x02, 0xee, 0xdb, 0xb7, 0x92,
        0x92, 0x2e,
    ];

    let assertion = build_contract_assertion(&signing_key, &payload_bytes);

    let result = WebAuthnVerifier::verify(
        &payload_bytes,
        &assertion.key_data,
        &assertion.signature,
        &assertion.authenticator_data,
        &assertion.client_data,
    );
    assert!(result);
}

#[test]
fn reject_wrong_challenge_on_chain() {
    let signing_key = test_key(0x0B);

    // Build assertion for one payload but verify with a different one
    let payload_bytes: [u8; 32] = [1u8; 32];
    let assertion = build_contract_assertion(&signing_key, &payload_bytes);

    // Use a DIFFERENT payload for verification — challenge won't match
    let wrong_payload: [u8; 32] = [2u8; 32];

    let result = WebAuthnVerifier::verify(
        &wrong_payload,
        &assertion.key_data,
        &assertion.signature,
        &assertion.authenticator_data,
        &assertion.client_data,
    );
    assert!(!result, "should reject mismatched challenge");
}

#[test]
fn reject_wrong_key_on_chain() {
    let signing_key = test_key(0x0C);
    let wrong_key = test_key(0x0D);

    let payload_bytes: [u8; 32] = [3u8; 32];
    let assertion = build_contract_assertion(&signing_key, &payload_bytes);

    // Use the WRONG public key
    let wrong_key_data = wrong_key.verifying_key().to_sec1_bytes().to_vec();

    let result = WebAuthnVerifier::verify(
        &payload_bytes,
        &wrong_key_data,
        &assertion.signature,
        &assertion.authenticator_data,
        &assertion.client_data,
    );
    assert!(!result, "should reject wrong public key");
}

#[test]
fn on_chain_ignores_trailing_key_bytes() {
    let signing_key = test_key(0x0E);
    let payload_bytes: [u8; 32] = [4u8; 32];
    let assertion = build_contract_assertion(&signing_key, &payload_bytes);

    // A credential ID appended after the 65 key bytes must be ignored.
    let mut key_data = assertion.key_data.clone();
    key_data.extend_from_slice(b"credential-id-bytes");

    let result = WebAuthnVerifier::verify(
        &payload_bytes,
        &key_data,
        &assertion.signature,
        &assertion.authenticator_data,
        &assertion.client_data,
    );
    assert!(result);
}
