use zero2prod2::gateway::EmailGateway;
use zero2prod2::issuer::issue;
use zero2prod2::routes::subscriptions::{subscribe, ApplicationBaseUrl, FormData};
use zero2prod2::store::{Store, StoreError};

fn subscribed_store() -> Store {
    let mut store = Store::new();
    let mut gateway = EmailGateway::new();
    let base = ApplicationBaseUrl("https://newsletter.example.com".to_string());
    let form = FormData { email: "s@s.com".to_string(), name: "stanley".to_string() };
    subscribe(&mut store, &mut gateway, &base, form);
    store
}

#[test]
fn an_issued_token_is_32_hex_characters_and_redeems() {
    let mut store = subscribed_store();
    let id = store.subscriber_id_for_email("s@s.com").unwrap();
    let token = issue(&mut store, id).unwrap();
    assert_eq!(token.len(), 32);
    assert!(token.chars().all(|c| c.is_ascii_hexdigit() && !c.is_uppercase()));
    assert_eq!(store.redeem_token(&token), Some(id));
}

#[test]
fn issuing_for_an_unknown_subscriber_is_refused() {
    let mut store = subscribed_store();
    let id = store.subscriber_id_for_email("s@s.com").unwrap();
    let other = id.wrapping_add(1);
    assert_eq!(issue(&mut store, other), Err(StoreError::UnknownSubscriber));
}

#[test]
fn an_unknown_token_does_not_redeem() {
    let store = subscribed_store();
    assert_eq!(store.redeem_token("0123456789abcdef0123456789abcdef"), None);
}
