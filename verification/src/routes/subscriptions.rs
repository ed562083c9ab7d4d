//! `POST /subscriptions` and `GET /subscriptions/confirm`.
//!
//! `subscribe` validates the form, stores a pending subscriber together with
//! a fresh confirmation token as one atomic step, and hands the confirmation
//! email to the delivery gateway; a failure to send still succeeds the
//! request (the send is fire-and-forget relative to the transaction).
//! `confirm` redeems a token and promotes its subscriber to `Confirmed`,
//! idempotently.

use vstd::prelude::*;
use vstd::string::*;
use crate::domain::subscriber_email::{email_valid, SubscriberEmail};
use crate::domain::subscriber_name::{name_ok, SubscriberName};
use crate::gateway::{EmailGateway, OutboundEmail, OutboundEmailView};
use crate::issuer::{mint_token, token_wf};
use crate::store::{
    confirm_transition,
    new_subscription_transition,
    token_added_transition,
    Store,
    StoreView,
};

verus! {

/// The base URL that confirmation links point back to.
pub struct ApplicationBaseUrl(pub String);

/// The form a visitor submits to subscribe.
pub struct FormData {
    pub email: String,
    pub name: String,
}

/// Relies on uuid's `Uuid::new_v4` (read back through `as_u128`); nothing is
/// promised of the random value.
#[verifier::external_body]
pub(crate) fn fresh_subscriber_id() -> u128 {
    uuid::Uuid::new_v4().as_u128()
}

/// Relies on chrono's `Utc::now`; nothing is promised of the clock reading.
#[verifier::external_body]
pub(crate) fn now_timestamp() -> i64 {
    chrono::Utc::now().timestamp()
}

/// The link a confirmation email carries.
pub open spec fn confirmation_link(base: Seq<char>, token: Seq<char>) -> Seq<char> {
    base + ("/subscriptions/confirm?subscription_token=")@ + token
}

/// The one confirmation email that a successful subscription sends.
pub open spec fn confirmation_email(to: Seq<char>, base: Seq<char>, token: Seq<char>) -> OutboundEmailView {
    OutboundEmailView {
        to,
        subject: ("Welcome!")@,
        html_content: ("Welcome to our newsletter!<br />Click <a href=\"")@ + confirmation_link(
            base,
            token,
        ) + ("\">here</a> to confirm your subscription.")@,
        text_content: ("Welcome to our newsletter!\nVisit ")@ + confirmation_link(base, token) + (
        " to confirm your subscription.")@,
    }
}

fn build_confirmation_email(to: &SubscriberEmail, base_url: &ApplicationBaseUrl, token: &str) -> (r:
    OutboundEmail)
    ensures
        r@ == confirmation_email(to@, base_url.0@, token@),
{
    let mut link = String::from_str(base_url.0.as_str());
    link.append("/subscriptions/confirm?subscription_token=");
    link.append(token);
    let mut html = String::from_str("Welcome to our newsletter!<br />Click <a href=\"");
    html.append(link.as_str());
    html.append("\">here</a> to confirm your subscription.");
    let mut text = String::from_str("Welcome to our newsletter!\nVisit ");
    text.append(link.as_str());
    text.append(" to confirm your subscription.");
    let r = OutboundEmail {
        to: to.as_string(),
        subject: String::from_str("Welcome!"),
        html_content: html,
        text_content: text,
    };
    proof {
        assert(r@.html_content =~= ("Welcome to our newsletter!<br />Click <a href=\"")@
            + confirmation_link(base_url.0@, token@) + (
        "\">here</a> to confirm your subscription.")@);
        assert(r@.text_content =~= ("Welcome to our newsletter!\nVisit ")@ + confirmation_link(
            base_url.0@,
            token@,
        ) + (" to confirm your subscription.")@);
    }
    r
}

/// How `POST /subscriptions` ends.
#[derive(Clone, Copy, PartialEq, Eq, Structural, Debug)]
pub enum SubscribeOutcome {
    /// The subscription is stored and a confirmation email was handed to the
    /// gateway: HTTP 200.
    Subscribed,
    /// The email or the name failed validation; nothing was stored: HTTP 400.
    InvalidInput,
    /// The store refused the transaction (an id or token clash); nothing was
    /// stored: HTTP 500.
    Fatal,
}

impl SubscribeOutcome {
    /// The HTTP status this outcome is reported with.
    pub fn status_code(&self) -> (r: u16)
        ensures
            r == match *self {
                SubscribeOutcome::Subscribed => 200u16,
                SubscribeOutcome::InvalidInput => 400u16,
                SubscribeOutcome::Fatal => 500u16,
            },
    {
        match *self {
            SubscribeOutcome::Subscribed => 200,
            SubscribeOutcome::InvalidInput => 400,
            SubscribeOutcome::Fatal => 500,
        }
    }
}

/// What a successful subscription does to the store. A known email gets a
/// fresh token onto its existing row (idempotent re-subscription); a new
/// email gets a pending row and its first token, atomically.
pub open spec fn subscribe_applied(
    pre: StoreView,
    post: StoreView,
    email: Seq<char>,
    name: Seq<char>,
    id: u128,
    token: Seq<char>,
    at: i64,
) -> bool {
    if pre.has_email(email) {
        token_added_transition(pre, post, pre.subscribers[pre.email_index(email)].id, token)
    } else {
        new_subscription_transition(pre, post, id, email, name, at, token)
    }
}

/// The collisions that make the subscribe transaction fail fatally: the
/// minted token is already mapped, or a brand-new subscriber drew an id that
/// is already taken.
pub open spec fn subscribe_clash(pre: StoreView, email: Seq<char>, id: u128, token: Seq<char>) -> bool {
    ||| pre.has_token(token)
    ||| (!pre.has_email(email) && pre.has_subscriber_id(id))
}

/// The subscribe flow with the minted values passed in, so that its contract
/// is exact for every id, token and timestamp.
pub fn subscribe_with(
    store: &mut Store,
    gateway: &mut EmailGateway,
    base_url: &ApplicationBaseUrl,
    form: FormData,
    id: u128,
    token: String,
    now: i64,
) -> (r: SubscribeOutcome)
    requires
        old(store)@.wf(),
    ensures
        final(store)@.wf(),
        match r {
            SubscribeOutcome::Subscribed => {
                &&& email_valid(form.email@) && name_ok(form.name@)
                &&& !subscribe_clash(old(store)@, form.email@, id, token@)
                &&& subscribe_applied(
                    old(store)@,
                    final(store)@,
                    form.email@,
                    form.name@,
                    id,
                    token@,
                    now,
                )
                &&& final(gateway)@.attempts == old(gateway)@.attempts.push(
                    confirmation_email(form.email@, base_url.0@, token@),
                )
                &&& final(gateway)@.failing == old(gateway)@.failing
            },
            SubscribeOutcome::InvalidInput => {
                &&& !(email_valid(form.email@) && name_ok(form.name@))
                &&& final(store)@ == old(store)@ && final(gateway)@ == old(gateway)@
            },
            SubscribeOutcome::Fatal => {
                &&& email_valid(form.email@) && name_ok(form.name@)
                &&& subscribe_clash(old(store)@, form.email@, id, token@)
                &&& final(store)@ == old(store)@ && final(gateway)@ == old(gateway)@
            },
        },
        form.email@.len() == 0 ==> r is InvalidInput,
        (forall|i: int| 0 <= i < form.email@.len() ==> form.email@[i] != '@') ==> r is InvalidInput,
{
    let email = match SubscriberEmail::parse(form.email) {
        Ok(e) => e,
        Err(_) => { return SubscribeOutcome::InvalidInput },
    };
    let name = match SubscriberName::parse(form.name) {
        Ok(n) => n,
        Err(_) => { return SubscribeOutcome::InvalidInput },
    };
    let outbound = build_confirmation_email(&email, base_url, token.as_str());
    // The transaction: a known email only gets a fresh token; a new email
    // gets its row and token together.
    let applied = match store.subscriber_id_for_email(email.as_str()) {
        Some(existing) => store.store_token(token, existing),
        None => store.create_subscriber_with_token(id, email, name, now, token),
    };
    match applied {
        Ok(()) => {
            // Fire-and-forget: a failed send still succeeds the request.
            match gateway.send(outbound) {
                Ok(()) => {},
                Err(_) => {},
            }
            SubscribeOutcome::Subscribed
        },
        Err(_) => SubscribeOutcome::Fatal,
    }
}

/// `POST /subscriptions`: validate the form, store the pending subscription
/// atomically with a freshly minted token, and hand the confirmation email
/// to the gateway.
pub fn subscribe(
    store: &mut Store,
    gateway: &mut EmailGateway,
    base_url: &ApplicationBaseUrl,
    form: FormData,
) -> (r: SubscribeOutcome)
    requires
        old(store)@.wf(),
    ensures
        final(store)@.wf(),
        (r is InvalidInput) <==> !(email_valid(form.email@) && name_ok(form.name@)),
        form.email@.len() == 0 ==> r is InvalidInput,
        (forall|i: int| 0 <= i < form.email@.len() ==> form.email@[i] != '@') ==> r is InvalidInput,
        r is InvalidInput ==> final(store)@ == old(store)@ && final(gateway)@ == old(gateway)@,
        r is Fatal ==> final(store)@ == old(store)@ && final(gateway)@ == old(gateway)@,
        // A fatal outcome is owed to a real clash of the minted values: on a
        // store where no well-formed token or fresh id can clash (an empty
        // one, say), success is owed for every valid form.
        r is Fatal ==> exists|id: u128, token: Seq<char>|
            token_wf(token) && #[trigger] subscribe_clash(old(store)@, form.email@, id, token),
        r is Subscribed ==> exists|id: u128, token: Seq<char>, at: i64|
            {
                &&& token_wf(token)
                &&& #[trigger] subscribe_applied(
                    old(store)@,
                    final(store)@,
                    form.email@,
                    form.name@,
                    id,
                    token,
                    at,
                )
                &&& final(gateway)@.attempts == old(gateway)@.attempts.push(
                    confirmation_email(form.email@, base_url.0@, token),
                )
                &&& final(gateway)@.failing == old(gateway)@.failing
            },
{
    let id = fresh_subscriber_id();
    let token = mint_token();
    let now = now_timestamp();
    let ghost tv = token@;
    let r = subscribe_with(store, gateway, base_url, form, id, token, now);
    proof {
        if r is Subscribed || r is Fatal {
            assert(token_wf(tv));
        }
    }
    r
}

/// How `GET /subscriptions/confirm` ends.
#[derive(Clone, Copy, PartialEq, Eq, Structural, Debug)]
pub enum ConfirmOutcome {
    /// The token resolved and its subscriber is now confirmed: HTTP 200.
    Confirmed,
    /// The token was missing or unknown: HTTP 400. Tokens are unguessable,
    /// so absence is a client error, not a routing miss.
    UnknownToken,
}

impl ConfirmOutcome {
    /// The HTTP status this outcome is reported with.
    pub fn status_code(&self) -> (r: u16)
        ensures
            r == match *self {
                ConfirmOutcome::Confirmed => 200u16,
                ConfirmOutcome::UnknownToken => 400u16,
            },
    {
        match *self {
            ConfirmOutcome::Confirmed => 200,
            ConfirmOutcome::UnknownToken => 400,
        }
    }
}

/// `GET /subscriptions/confirm`: redeem the token and promote its subscriber
/// to `Confirmed`. Redeeming does not consume the token, and confirming an
/// already confirmed subscriber is a no-op success.
pub fn confirm(store: &mut Store, token: Option<&String>) -> (r: ConfirmOutcome)
    requires
        old(store)@.wf(),
    ensures
        final(store)@.wf(),
        token is None ==> r is UnknownToken && final(store)@ == old(store)@,
        token matches Some(t) ==> match old(store)@.redeem(t@) {
            None => r is UnknownToken && final(store)@ == old(store)@,
            Some(id) => r is Confirmed && confirm_transition(old(store)@, final(store)@, id),
        },
{
    let t = match token {
        Some(t) => t,
        None => { return ConfirmOutcome::UnknownToken },
    };
    match store.redeem_token(t.as_str()) {
        Some(id) => {
            proof {
                // The store's well-formedness ties every token to an existing
                // subscriber, so the promotion cannot miss.
                let w = old(store)@.token_index(t@);
                assert(old(store)@.has_subscriber_id(old(store)@.tokens[w].subscriber_id));
            }
            match store.confirm_subscriber(id) {
                Ok(()) => ConfirmOutcome::Confirmed,
                Err(_) => {
                    proof {
                        assert(false);
                    }
                    ConfirmOutcome::UnknownToken
                },
            }
        },
        None => ConfirmOutcome::UnknownToken,
    }
}

} // verus!
