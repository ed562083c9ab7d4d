use zero2prod2::gateway::EmailGateway;
use zero2prod2::routes::subscriptions::{
    confirm, subscribe, ApplicationBaseUrl, ConfirmOutcome, FormData, SubscribeOutcome,
};
use zero2prod2::store::{Store, SubscriberStatus};

fn base_url() -> ApplicationBaseUrl {
    ApplicationBaseUrl("https://newsletter.example.com".to_string())
}

fn form(email: &str, name: &str) -> FormData {
    FormData { email: email.to_string(), name: name.to_string() }
}

/// The token is carried in the confirmation link inside the email body.
fn token_from_html(html: &str) -> String {
    let marker = "subscription_token=";
    let start = html.find(marker).expect("no confirmation link in the email") + marker.len();
    let rest = &html[start..];
    let end = rest.find('"').unwrap_or(rest.len());
    rest[..end].to_string()
}

#[test]
fn subscribe_stores_a_pending_subscriber() {
    let mut store = Store::new();
    let mut gateway = EmailGateway::new();
    let outcome = subscribe(&mut store, &mut gateway, &base_url(), form("stan@gmail.com", "stanley the third"));
    assert_eq!(outcome, SubscribeOutcome::Subscribed);
    assert_eq!(outcome.status_code(), 200);
    assert_eq!(store.subscriber_count(), 1);
    assert_eq!(
        store.status_for_email("stan@gmail.com"),
        Some(SubscriberStatus::PendingConfirmation)
    );
    assert_eq!(store.name_for_email("stan@gmail.com"), Some("stanley the third".to_string()));
}

#[test]
fn subscribe_sends_exactly_one_confirmation_email_with_a_link() {
    let mut store = Store::new();
    let mut gateway = EmailGateway::new();
    let outcome = subscribe(&mut store, &mut gateway, &base_url(), form("stan@ley.com", "stanley the human"));
    assert_eq!(outcome, SubscribeOutcome::Subscribed);
    assert_eq!(gateway.attempt_count(), 1);
    let email = gateway.attempt(0);
    assert_eq!(email.to, "stan@ley.com");
    assert_eq!(email.subject, "Welcome!");
    let token = token_from_html(&email.html_content);
    assert_eq!(token.len(), 32);
    assert!(token.chars().all(|c| c.is_ascii_hexdigit()));
    assert!(email
        .html_content
        .contains("https://newsletter.example.com/subscriptions/confirm?subscription_token="));
    assert!(email.text_content.contains(&token));
}

#[test]
fn subscribe_rejects_invalid_inputs_and_stores_nothing() {
    let cases = [
        ("", "stanley", "empty email"),
        ("not-an-email", "stanley", "email without an at sign"),
        ("stan@gmail.com", "", "empty name"),
        ("stan@gmail.com", "    ", "whitespace-only name"),
        ("stan@gmail.com", "stan/ley", "name with a forbidden character"),
    ];
    for (email, name, case) in cases {
        let mut store = Store::new();
        let mut gateway = EmailGateway::new();
        let outcome = subscribe(&mut store, &mut gateway, &base_url(), form(email, name));
        assert_eq!(outcome, SubscribeOutcome::InvalidInput, "not rejected: {case}");
        assert_eq!(outcome.status_code(), 400);
        assert_eq!(store.subscriber_count(), 0, "a row was created for: {case}");
        assert_eq!(gateway.attempt_count(), 0, "an email went out for: {case}");
    }
}

#[test]
fn subscribe_rejects_an_overlong_name() {
    let mut store = Store::new();
    let mut gateway = EmailGateway::new();
    let outcome = subscribe(&mut store, &mut gateway, &base_url(), form("stan@gmail.com", &"a".repeat(257)));
    assert_eq!(outcome, SubscribeOutcome::InvalidInput);
    assert_eq!(store.subscriber_count(), 0);
}

#[test]
fn confirmation_link_confirms_the_subscriber() {
    let mut store = Store::new();
    let mut gateway = EmailGateway::new();
    subscribe(&mut store, &mut gateway, &base_url(), form("s@s.com", "stanley"));
    let token = token_from_html(&gateway.attempt(0).html_content);
    let outcome = confirm(&mut store, Some(&token));
    assert_eq!(outcome, ConfirmOutcome::Confirmed);
    assert_eq!(outcome.status_code(), 200);
    assert_eq!(store.status_for_email("s@s.com"), Some(SubscriberStatus::Confirmed));
}

#[test]
fn confirming_twice_is_a_no_op_success() {
    let mut store = Store::new();
    let mut gateway = EmailGateway::new();
    subscribe(&mut store, &mut gateway, &base_url(), form("s@s.com", "stanley"));
    let token = token_from_html(&gateway.attempt(0).html_content);
    assert_eq!(confirm(&mut store, Some(&token)), ConfirmOutcome::Confirmed);
    assert_eq!(confirm(&mut store, Some(&token)), ConfirmOutcome::Confirmed);
    assert_eq!(store.status_for_email("s@s.com"), Some(SubscriberStatus::Confirmed));
    assert_eq!(store.subscriber_count(), 1);
}

#[test]
fn confirmation_without_token_is_rejected_with_400() {
    let mut store = Store::new();
    let outcome = confirm(&mut store, None);
    assert_eq!(outcome, ConfirmOutcome::UnknownToken);
    assert_eq!(outcome.status_code(), 400);
}

#[test]
fn confirmation_with_unknown_token_is_rejected_with_400() {
    let mut store = Store::new();
    let mut gateway = EmailGateway::new();
    subscribe(&mut store, &mut gateway, &base_url(), form("s@s.com", "stanley"));
    let unknown = "0123456789abcdef0123456789abcdef".to_string();
    let outcome = confirm(&mut store, Some(&unknown));
    assert_eq!(outcome, ConfirmOutcome::UnknownToken);
    assert_eq!(store.status_for_email("s@s.com"), Some(SubscriberStatus::PendingConfirmation));
}

#[test]
fn resubscribing_issues_a_second_token_for_the_same_row() {
    let mut store = Store::new();
    let mut gateway = EmailGateway::new();
    subscribe(&mut store, &mut gateway, &base_url(), form("s@s.com", "stanley"));
    subscribe(&mut store, &mut gateway, &base_url(), form("s@s.com", "stanley"));
    assert_eq!(store.subscriber_count(), 1);
    assert_eq!(gateway.attempt_count(), 2);
    let first = token_from_html(&gateway.attempt(0).html_content);
    let second = token_from_html(&gateway.attempt(1).html_content);
    assert_ne!(first, second);
    // Both tokens resolve to the same subscriber.
    assert_eq!(confirm(&mut store, Some(&first)), ConfirmOutcome::Confirmed);
    assert_eq!(confirm(&mut store, Some(&second)), ConfirmOutcome::Confirmed);
    assert_eq!(store.subscriber_count(), 1);
}
