use fake::faker::internet::en::SafeEmail;
use fake::Fake;
use zero2prod2::domain::{SubscriberEmail, SubscriberName};

#[test]
fn valid_email_accepted() {
    let email = "cat@cat.com".to_string();
    assert!(SubscriberEmail::parse(email).is_ok());
}

#[test]
fn empty_string_is_rejected() {
    let email = "".to_string();
    assert!(SubscriberEmail::parse(email).is_err());
}

#[test]
fn email_missing_at_symbol_is_rejected() {
    let email = "ursuladomain.com".to_string();
    assert!(SubscriberEmail::parse(email).is_err());
}

#[test]
fn email_missing_subject_is_rejected() {
    let email = "@ursuladomain.com".to_string();
    assert!(SubscriberEmail::parse(email).is_err());
}

#[test]
fn valid_emails_are_parsed_succesffully() {
    let email: String = SafeEmail().fake();
    assert!(SubscriberEmail::parse(email).is_ok());
}

#[test]
fn a_256_grapheme_long_name_is_valid() {
    let name = "ё".repeat(256);
    assert!(SubscriberName::parse(name).is_ok());
}

#[test]
fn a_name_longer_than_256_grapheme_is_rejected() {
    let name = "ё".repeat(257);
    assert!(SubscriberName::parse(name).is_err());
}

#[test]
fn whitespace_only_name_rejected() {
    let name = "    ".to_string();
    assert!(SubscriberName::parse(name).is_err());
}

#[test]
fn empty_name_rejected() {
    let name = "".to_string();
    assert!(SubscriberName::parse(name).is_err());
}

#[test]
fn name_with_forbidden_characters_rejected() {
    for name in &['/', '(', ')', '"', '<', '>', '\\', '{', '}'] {
        let name = name.to_string();
        assert!(SubscriberName::parse(name).is_err());
    }
}

#[test]
fn a_valid_name_is_parsed_successfully() {
    let name = "Stanley and third ate a bird".to_string();
    assert!(SubscriberName::parse(name).is_ok());
}

#[test]
fn a_parsed_name_keeps_its_characters() {
    let name = SubscriberName::parse("Ursula Le Guin".to_string()).unwrap();
    assert_eq!(name.as_str(), "Ursula Le Guin");
}

#[test]
fn a_parsed_email_keeps_its_characters() {
    let email = SubscriberEmail::parse("big@cat.com".to_string()).unwrap();
    assert_eq!(email.as_str(), "big@cat.com");
}
