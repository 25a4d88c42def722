use sec_auth::validations::{is_valid_email, is_valid_password};

#[test]
fn email_needs_an_at_sign() {
    assert!(is_valid_email(&"alice@example.com".to_string()));
    assert!(is_valid_email(&"@".to_string()));
    assert!(!is_valid_email(&"alice.example.com".to_string()));
    assert!(!is_valid_email(&"".to_string()));
}

#[test]
fn password_needs_eight_bytes() {
    assert!(is_valid_password(&"12345678".to_string()));
    assert!(!is_valid_password(&"1234567".to_string()));
    assert!(!is_valid_password(&"".to_string()));
}

#[test]
fn password_length_counts_utf8_bytes() {
    // four characters of two bytes each
    assert!(is_valid_password(&"éééé".to_string()));
    assert!(!is_valid_password(&"ééé".to_string()));
}
