use zero2prod2::idempotency::IdempotencyKey;

#[test]
fn an_ordinary_key_is_accepted() {
    let key = IdempotencyKey::parse("retry-attempt-1".to_string()).unwrap();
    assert_eq!(key.as_str(), "retry-attempt-1");
    assert_eq!(key.into_string(), "retry-attempt-1");
}

#[test]
fn an_empty_key_is_rejected() {
    assert!(IdempotencyKey::parse("".to_string()).is_err());
}

#[test]
fn a_49_byte_key_is_accepted() {
    let key = "k".repeat(49);
    assert!(IdempotencyKey::parse(key).is_ok());
}

#[test]
fn a_50_byte_key_is_rejected() {
    let key = "k".repeat(50);
    assert!(IdempotencyKey::parse(key).is_err());
}
