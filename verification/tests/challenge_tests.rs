use passkey_core::challenge::Challenge;

#[test]
fn new_challenge_has_correct_contract_id() {
    let c = Challenge::new("CABC123");
    assert_eq!(c.contract_id, "CABC123");
}

#[test]
fn challenge_bytes_are_32_bytes() {
    let c = Challenge::new("CABC123");
    let bytes = c.challenge_bytes().unwrap();
    assert_eq!(bytes.len(), 32);
}

#[test]
fn challenge_id_is_nonempty() {
    let c = Challenge::new("CABC123");
    assert!(!c.challenge_id.is_empty());
}

#[test]
fn two_challenges_are_different() {
    let c1 = Challenge::new("CABC123");
    let c2 = Challenge::new("CABC123");
    assert_ne!(c1.challenge, c2.challenge);
    assert_ne!(c1.challenge_id, c2.challenge_id);
}

#[test]
fn storage_key_format() {
    let c = Challenge::new("CABC123");
    let key = c.storage_key();
    assert!(key.starts_with("challenge:CABC123:"));
}

#[test]
fn fresh_challenge_is_not_expired() {
    let c = Challenge::new("CABC123");
    assert!(!c.is_expired());
}

#[test]
fn old_challenge_is_expired() {
    let mut c = Challenge::new("CABC123");
    // Set created_at to 10 minutes ago
    c.created_at -= 600;
    assert!(c.is_expired());
}

#[test]
fn malformed_challenge_text_fails_to_decode() {
    let mut c = Challenge::new("CABC123");
    c.challenge = String::from("not!base64url");
    let err = c.challenge_bytes().unwrap_err();
    assert!(err.message().starts_with("base64 decode error: "));
}
