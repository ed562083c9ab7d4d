use zero2prod2::gateway::EmailGateway;
use zero2prod2::idempotency::IdempotencyKey;
use zero2prod2::routes::newsletters::{publish_newsletter, NewsletterForm};
use zero2prod2::routes::subscriptions::{confirm, subscribe, ApplicationBaseUrl, FormData};
use zero2prod2::store::{BeginOutcome, Store};

const OPERATOR: u128 = 7;

fn base_url() -> ApplicationBaseUrl {
    ApplicationBaseUrl("https://newsletter.example.com".to_string())
}

fn issue_form(key: &str) -> NewsletterForm {
    NewsletterForm {
        title: "Newsletter title".to_string(),
        text_content: "Newsletter body as plain text".to_string(),
        html_content: "<p>Newsletter body as HTML</p>".to_string(),
        idempotency_key: key.to_string(),
    }
}

fn token_from_html(html: &str) -> String {
    let marker = "subscription_token=";
    let start = html.find(marker).expect("no confirmation link in the email") + marker.len();
    let rest = &html[start..];
    let end = rest.find('"').unwrap_or(rest.len());
    rest[..end].to_string()
}

/// Subscribe the address and click its confirmation link.
fn add_confirmed_subscriber(store: &mut Store, gateway: &mut EmailGateway, email: &str) {
    let form = FormData { email: email.to_string(), name: "subscriber".to_string() };
    subscribe(store, gateway, &base_url(), form);
    let last = gateway.attempt_count() - 1;
    let token = token_from_html(&gateway.attempt(last).html_content);
    confirm(store, Some(&token));
}

/// Subscribe the address without confirming it.
fn add_unconfirmed_subscriber(store: &mut Store, gateway: &mut EmailGateway, email: &str) {
    let form = FormData { email: email.to_string(), name: "subscriber".to_string() };
    subscribe(store, gateway, &base_url(), form);
}

#[test]
fn newsletters_are_not_delivered_to_unconfirmed_subscribers() {
    let mut store = Store::new();
    let mut setup_gateway = EmailGateway::new();
    add_unconfirmed_subscriber(&mut store, &mut setup_gateway, "pending@cat.com");
    let mut gateway = EmailGateway::new();
    let response = publish_newsletter(&mut store, &mut gateway, Some(OPERATOR), &issue_form("key-1"));
    assert_eq!(response.status, 303);
    assert_eq!(gateway.attempt_count(), 0);
}

#[test]
fn newsletters_are_delivered_to_confirmed_subscribers() {
    let mut store = Store::new();
    let mut setup_gateway = EmailGateway::new();
    add_confirmed_subscriber(&mut store, &mut setup_gateway, "confirmed@cat.com");
    add_unconfirmed_subscriber(&mut store, &mut setup_gateway, "pending@cat.com");
    let mut gateway = EmailGateway::new();
    let response = publish_newsletter(&mut store, &mut gateway, Some(OPERATOR), &issue_form("key-1"));
    assert_eq!(response.status, 303);
    assert_eq!(
        response.headers,
        vec![("Location".to_string(), "/admin/newsletter".to_string())]
    );
    assert_eq!(gateway.attempt_count(), 1);
    let email = gateway.attempt(0);
    assert_eq!(email.to, "confirmed@cat.com");
    assert_eq!(email.subject, "Newsletter title");
    assert_eq!(email.html_content, "<p>Newsletter body as HTML</p>");
    assert_eq!(email.text_content, "Newsletter body as plain text");
}

#[test]
fn newsletters_returns_400_for_invalid_data() {
    let mut store = Store::new();
    let mut setup_gateway = EmailGateway::new();
    add_confirmed_subscriber(&mut store, &mut setup_gateway, "confirmed@cat.com");
    let cases = [
        (
            NewsletterForm {
                title: "".to_string(),
                text_content: "text".to_string(),
                html_content: "html".to_string(),
                idempotency_key: "key-1".to_string(),
            },
            "missing title",
        ),
        (
            NewsletterForm {
                title: "Newsletter title".to_string(),
                text_content: "".to_string(),
                html_content: "html".to_string(),
                idempotency_key: "key-1".to_string(),
            },
            "missing text content",
        ),
        (
            NewsletterForm {
                title: "Newsletter title".to_string(),
                text_content: "text".to_string(),
                html_content: "".to_string(),
                idempotency_key: "key-1".to_string(),
            },
            "missing html content",
        ),
        (
            NewsletterForm {
                title: "Newsletter title".to_string(),
                text_content: "text".to_string(),
                html_content: "html".to_string(),
                idempotency_key: "".to_string(),
            },
            "missing idempotency key",
        ),
    ];
    for (form, case) in cases {
        let mut gateway = EmailGateway::new();
        let response = publish_newsletter(&mut store, &mut gateway, Some(OPERATOR), &form);
        assert_eq!(response.status, 400, "did not fail with 400 for {case}");
        assert_eq!(gateway.attempt_count(), 0, "a delivery went out for {case}");
    }
}

#[test]
fn publish_without_credentials_is_challenged_with_401() {
    let mut store = Store::new();
    let mut gateway = EmailGateway::new();
    let response = publish_newsletter(&mut store, &mut gateway, None, &issue_form("key-1"));
    assert_eq!(response.status, 401);
    assert_eq!(
        response.headers,
        vec![("WWW-Authenticate".to_string(), "Basic realm=\"publish\"".to_string())]
    );
    assert_eq!(gateway.attempt_count(), 0);
}

#[test]
fn newsletter_creation_is_idempotent() {
    let mut store = Store::new();
    let mut setup_gateway = EmailGateway::new();
    add_confirmed_subscriber(&mut store, &mut setup_gateway, "confirmed@cat.com");
    let mut gateway = EmailGateway::new();
    let first = publish_newsletter(&mut store, &mut gateway, Some(OPERATOR), &issue_form("key-1"));
    assert_eq!(first.status, 303);
    assert_eq!(gateway.attempt_count(), 1);
    // The retry replays the identical response and delivers nothing.
    let second = publish_newsletter(&mut store, &mut gateway, Some(OPERATOR), &issue_form("key-1"));
    assert_eq!(second, first);
    assert_eq!(gateway.attempt_count(), 1);
}

#[test]
fn distinct_keys_deliver_again() {
    let mut store = Store::new();
    let mut setup_gateway = EmailGateway::new();
    add_confirmed_subscriber(&mut store, &mut setup_gateway, "confirmed@cat.com");
    let mut gateway = EmailGateway::new();
    publish_newsletter(&mut store, &mut gateway, Some(OPERATOR), &issue_form("key-1"));
    publish_newsletter(&mut store, &mut gateway, Some(OPERATOR), &issue_form("key-2"));
    assert_eq!(gateway.attempt_count(), 2);
}

#[test]
fn a_key_in_flight_answers_a_transient_conflict() {
    let mut store = Store::new();
    let mut setup_gateway = EmailGateway::new();
    add_confirmed_subscriber(&mut store, &mut setup_gateway, "confirmed@cat.com");
    // Another execution holds the key and has not saved its response yet.
    let key = IdempotencyKey::parse("key-1".to_string()).unwrap();
    assert!(matches!(store.try_claim(OPERATOR, &key), BeginOutcome::Claimed));
    let mut gateway = EmailGateway::new();
    let response = publish_newsletter(&mut store, &mut gateway, Some(OPERATOR), &issue_form("key-1"));
    assert_eq!(response.status, 409);
    assert_eq!(gateway.attempt_count(), 0);
}

#[test]
fn a_second_claim_of_the_same_key_is_refused() {
    let mut store = Store::new();
    let key = IdempotencyKey::parse("key-1".to_string()).unwrap();
    assert!(matches!(store.try_claim(OPERATOR, &key), BeginOutcome::Claimed));
    assert!(matches!(store.try_claim(OPERATOR, &key), BeginOutcome::InFlight));
}

#[test]
fn one_failing_recipient_does_not_block_the_rest() {
    let mut store = Store::new();
    let mut setup_gateway = EmailGateway::new();
    add_confirmed_subscriber(&mut store, &mut setup_gateway, "first@cat.com");
    add_confirmed_subscriber(&mut store, &mut setup_gateway, "second@cat.com");
    add_confirmed_subscriber(&mut store, &mut setup_gateway, "third@cat.com");
    let mut gateway = EmailGateway::with_failures(vec!["second@cat.com".to_string()]);
    let response = publish_newsletter(&mut store, &mut gateway, Some(OPERATOR), &issue_form("key-1"));
    // The command still completes, and every confirmed subscriber was
    // attempted, the failing one included.
    assert_eq!(response.status, 303);
    assert_eq!(gateway.attempt_count(), 3);
    assert_eq!(gateway.attempt(0).to, "first@cat.com");
    assert_eq!(gateway.attempt(1).to, "second@cat.com");
    assert_eq!(gateway.attempt(2).to, "third@cat.com");
}

#[test]
fn end_to_end_subscribe_confirm_publish_and_retry() {
    let mut store = Store::new();
    let mut gateway = EmailGateway::new();
    // name=stan&email=big%40cat.com
    let form = FormData { email: "big@cat.com".to_string(), name: "stan".to_string() };
    let outcome = subscribe(&mut store, &mut gateway, &base_url(), form);
    assert_eq!(outcome.status_code(), 200);
    // Exactly one outbound email, carrying the confirmation link.
    assert_eq!(gateway.attempt_count(), 1);
    let token = token_from_html(&gateway.attempt(0).html_content);
    // Visiting the link confirms the subscription.
    let confirmed = confirm(&mut store, Some(&token));
    assert_eq!(confirmed.status_code(), 200);
    // An authorized publish delivers exactly one email to that address.
    let first = publish_newsletter(&mut store, &mut gateway, Some(OPERATOR), &issue_form("issue-1"));
    assert_eq!(first.status, 303);
    assert_eq!(gateway.attempt_count(), 2);
    assert_eq!(gateway.attempt(1).to, "big@cat.com");
    // Repeating the identical request returns the same redirect and delivers
    // nothing new.
    let second = publish_newsletter(&mut store, &mut gateway, Some(OPERATOR), &issue_form("issue-1"));
    assert_eq!(second, first);
    assert_eq!(second.status, 303);
    assert_eq!(gateway.attempt_count(), 2);
}
