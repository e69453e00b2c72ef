use base64::Engine;
use passkey_core::error::Error;
use passkey_core::webauthn::client_data::ClientData;

fn make_client_data_json(typ: &str, challenge: &str, origin: &str) -> Vec<u8> {
    format!(r#"{{"type":"{typ}","challenge":"{challenge}","origin":"{origin}"}}"#).into_bytes()
}

#[test]
fn parse_valid_client_data() {
    let json = make_client_data_json(
        "webauthn.get",
        "dGVzdC1jaGFsbGVuZ2U",
        "https://test.sorobancontracts.com",
    );
    let cd = ClientData::parse(&json).unwrap();
    assert_eq!(cd.typ, "webauthn.get");
    assert_eq!(cd.challenge, "dGVzdC1jaGFsbGVuZ2U");
    assert_eq!(cd.origin, "https://test.sorobancontracts.com");
    assert!(!cd.cross_origin);
}

#[test]
fn validate_correct_fields() {
    let json = make_client_data_json(
        "webauthn.get",
        "dGVzdC1jaGFsbGVuZ2U",
        "https://test.sorobancontracts.com",
    );
    let cd = ClientData::parse(&json).unwrap();
    cd.validate("dGVzdC1jaGFsbGVuZ2U", "https://test.sorobancontracts.com")
        .unwrap();
}

#[test]
fn rejects_wrong_type() {
    let json = make_client_data_json(
        "webauthn.create",
        "dGVzdA",
        "https://test.sorobancontracts.com",
    );
    let cd = ClientData::parse(&json).unwrap();
    let err = cd
        .validate("dGVzdA", "https://test.sorobancontracts.com")
        .unwrap_err();
    assert!(err.message().contains("webauthn.get"));
}

#[test]
fn rejects_wrong_challenge() {
    let json = make_client_data_json(
        "webauthn.get",
        "wrong-challenge",
        "https://test.sorobancontracts.com",
    );
    let cd = ClientData::parse(&json).unwrap();
    let err = cd
        .validate("correct-challenge", "https://test.sorobancontracts.com")
        .unwrap_err();
    assert!(matches!(err, Error::ChallengeMismatch));
}

#[test]
fn rejects_wrong_origin() {
    let json = make_client_data_json("webauthn.get", "dGVzdA", "https://evil.example.com");
    let cd = ClientData::parse(&json).unwrap();
    let err = cd
        .validate("dGVzdA", "https://test.sorobancontracts.com")
        .unwrap_err();
    assert!(matches!(err, Error::OriginMismatch { .. }));
}

#[test]
fn rejects_invalid_json() {
    let err = ClientData::parse(b"not json").unwrap_err();
    assert!(err.message().contains("invalid client data"));
}

#[test]
fn decode_challenge_bytes() {
    let challenge_b64 = base64::engine::general_purpose::URL_SAFE_NO_PAD.encode(b"hello world");
    let json = make_client_data_json(
        "webauthn.get",
        &challenge_b64,
        "https://test.sorobancontracts.com",
    );
    let cd = ClientData::parse(&json).unwrap();
    assert_eq!(cd.challenge_bytes().unwrap(), b"hello world");
}

#[test]
fn ignores_unknown_members() {
    let json = br#"{"type":"webauthn.get","challenge":"dGVzdA","origin":"https://x.example","extra":{"nested":[1,2,{"deep":null}],"s":"v"},"other":-1.5e3}"#;
    let cd = ClientData::parse(json).unwrap();
    assert_eq!(cd.typ, "webauthn.get");
    assert_eq!(cd.challenge, "dGVzdA");
}

#[test]
fn cross_origin_parses_when_present() {
    let json = br#"{"type":"webauthn.get","challenge":"dGVzdA","origin":"https://x.example","crossOrigin":true}"#;
    let cd = ClientData::parse(json).unwrap();
    assert!(cd.cross_origin);
}

#[test]
fn rejects_missing_required_member() {
    let json = br#"{"type":"webauthn.get","origin":"https://x.example"}"#;
    let err = ClientData::parse(json).unwrap_err();
    assert!(err.message().contains("invalid client data"));
}

#[test]
fn rejects_duplicate_known_member() {
    let json =
        br#"{"type":"webauthn.get","type":"webauthn.get","challenge":"dGVzdA","origin":"https://x.example"}"#;
    assert!(ClientData::parse(json).is_err());
}

#[test]
fn decodes_escaped_strings() {
    let json = br#"{"type":"webauthn.get","challenge":"abc","origin":"https:\/\/x.example"}"#;
    let cd = ClientData::parse(json).unwrap();
    assert_eq!(cd.challenge, "abc");
    assert_eq!(cd.origin, "https://x.example");
}

#[test]
fn rejects_trailing_characters() {
    let json = br#"{"type":"webauthn.get","challenge":"dGVzdA","origin":"https://x.example"} trailing"#;
    assert!(ClientData::parse(json).is_err());
}
