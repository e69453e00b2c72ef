use passkey_core::contract_id::validate_contract_id;

#[test]
fn valid_contract_id() {
    // 'C' + 55 valid base32 chars
    let id = "CAAAAAAAAAAAAAAAAAAAAAAAAAAAAAAAAAAAAAAAAAAAAAAAAAAAAAAA";
    assert!(validate_contract_id(id).is_ok());
}

#[test]
fn valid_contract_id_mixed_chars() {
    let id = "CABCDEFGHIJKLMNOPQRSTUVWXYZ234567ABCDEFGHIJKLMNOPQRSTUVW";
    assert!(validate_contract_id(id).is_ok());
}

#[test]
fn rejects_g_address() {
    let id = "GAAAAAAAAAAAAAAAAAAAAAAAAAAAAAAAAAAAAAAAAAAAAAAAAAAAAAAA";
    let err = validate_contract_id(id).unwrap_err();
    assert!(err.message().contains("must start with 'C'"));
}

#[test]
fn contract_id_rejects_too_short() {
    let id = "CAAAA";
    let err = validate_contract_id(id).unwrap_err();
    assert!(err.message().contains("must be 56 characters"));
}

#[test]
fn rejects_too_long() {
    let id = "CAAAAAAAAAAAAAAAAAAAAAAAAAAAAAAAAAAAAAAAAAAAAAAAAAAAAAAAAA";
    let err = validate_contract_id(id).unwrap_err();
    assert!(err.message().contains("must be 56 characters"));
}

#[test]
fn rejects_invalid_base32_chars() {
    // '0', '1', '8', '9' and lowercase are not valid base32
    let id = "C0000000000000000000000000000000000000000000000000000000";
    let err = validate_contract_id(id).unwrap_err();
    assert!(err.message().contains("invalid base32"));
}

#[test]
fn rejects_lowercase() {
    let id = "Caaaaaaaaaaaaaaaaaaaaaaaaaaaaaaaaaaaaaaaaaaaaaaaaaaaaaaa";
    let err = validate_contract_id(id).unwrap_err();
    assert!(err.message().contains("invalid base32"));
}

#[test]
fn length_error_reports_byte_count() {
    let err = validate_contract_id("CAAAA").unwrap_err();
    assert_eq!(err.message(), "invalid contract ID: must be 56 characters, got 5");
}
