//! `POST /newsletters`: idempotent publication of a newsletter issue with
//! best-effort fan-out to every confirmed subscriber.

use vstd::prelude::*;
use crate::gateway::{EmailGateway, GatewayView, OutboundEmail, OutboundEmailView};
use crate::idempotency::key::{key_ok, IdempotencyKey};
use crate::response::{ResponseView, StoredResponse};
use crate::store::{
    claim_transition,
    complete_transition,
    BeginOutcome,
    IdempotencyView,
    Store,
    StoreView,
};

verus! {

/// The form an operator submits to publish an issue.
pub struct NewsletterForm {
    pub title: String,
    pub text_content: String,
    pub html_content: String,
    pub idempotency_key: String,
}

/// A valid issue payload: nothing may be empty, and the idempotency key must
/// be well-formed.
pub open spec fn issue_ok(title: Seq<char>, html: Seq<char>, text: Seq<char>, key: Seq<char>) -> bool {
    &&& title.len() > 0
    &&& html.len() > 0
    &&& text.len() > 0
    &&& key_ok(key)
}

/// The email one confirmed subscriber receives for an issue.
pub open spec fn issue_email(to: Seq<char>, title: Seq<char>, html: Seq<char>, text: Seq<char>) -> OutboundEmailView {
    OutboundEmailView { to, subject: title, html_content: html, text_content: text }
}

/// The batch an issue fans out to, one email per recipient, in order.
pub open spec fn issue_emails(
    recipients: Seq<Seq<char>>,
    title: Seq<char>,
    html: Seq<char>,
    text: Seq<char>,
) -> Seq<OutboundEmailView> {
    recipients.map_values(|to: Seq<char>| issue_email(to, title, html, text))
}

/// The response a first successful publish saves and returns: a redirect to
/// the operator's newsletter page.
pub open spec fn publish_success_response() -> ResponseView {
    ResponseView {
        status: 303,
        headers: seq![(("Location")@, ("/admin/newsletter")@)],
        body: Seq::<u8>::empty(),
    }
}

/// The challenge an unauthenticated publish is answered with.
pub open spec fn publish_unauthorized_response() -> ResponseView {
    ResponseView {
        status: 401,
        headers: seq![(("WWW-Authenticate")@, ("Basic realm=\"publish\"")@)],
        body: Seq::<u8>::empty(),
    }
}

/// The answer to a payload that fails validation.
pub open spec fn publish_invalid_response() -> ResponseView {
    ResponseView { status: 400, headers: Seq::empty(), body: Seq::<u8>::empty() }
}

/// The transient answer while another execution holds the key; the caller
/// retries later with the same key.
pub open spec fn publish_in_flight_response() -> ResponseView {
    ResponseView { status: 409, headers: Seq::empty(), body: Seq::<u8>::empty() }
}

/// Everything `publish_newsletter` does, as one relation between the states
/// before and after and the response: a 401 challenge without an operator; a
/// 400 refusal of an invalid payload; for a free key, a fan-out to exactly
/// the confirmed subscribers, the claim and its saved 303 response appended
/// as one record; for a held key, the in-flight signal or the saved response
/// replayed verbatim, with no delivery attempt in either case.
pub open spec fn publish_rel(
    pre_s: StoreView,
    pre_g: GatewayView,
    post_s: StoreView,
    post_g: GatewayView,
    operator: Option<u128>,
    title: Seq<char>,
    html: Seq<char>,
    text: Seq<char>,
    key: Seq<char>,
    resp: ResponseView,
) -> bool {
    match operator {
        None => resp == publish_unauthorized_response() && post_s == pre_s && post_g == pre_g,
        Some(op) => {
            if !issue_ok(title, html, text, key) {
                resp == publish_invalid_response() && post_s == pre_s && post_g == pre_g
            } else if !pre_s.has_claim(op, key) {
                &&& resp == publish_success_response()
                &&& post_s.subscribers == pre_s.subscribers
                &&& post_s.tokens == pre_s.tokens
                &&& post_s.idempotency == pre_s.idempotency.push(
                    IdempotencyView {
                        operator_id: op,
                        key,
                        seq: pre_s.idempotency.len() as usize,
                        response: Some(resp),
                    },
                )
                &&& post_g.attempts == pre_g.attempts + issue_emails(
                    pre_s.confirmed_emails(),
                    title,
                    html,
                    text,
                )
                &&& post_g.failing == pre_g.failing
            } else if pre_s.claim_response(op, key) is None {
                resp == publish_in_flight_response() && post_s == pre_s && post_g == pre_g
            } else {
                &&& pre_s.claim_response(op, key) matches Some(saved) && resp == saved
                &&& post_s == pre_s && post_g == pre_g
            }
        },
    }
}

/// `POST /newsletters`. The operator argument is the authentication result
/// (`None` for missing or bad credentials). One key executes at most once:
/// the first publish claims it, delivers to every confirmed subscriber —
/// individual failures do not abort the batch — and saves its response; a
/// retry replays that response without a single new delivery attempt.
pub fn publish_newsletter(
    store: &mut Store,
    gateway: &mut EmailGateway,
    operator: Option<u128>,
    form: &NewsletterForm,
) -> (r: StoredResponse)
    requires
        old(store)@.wf(),
    ensures
        final(store)@.wf(),
        publish_rel(
            old(store)@,
            old(gateway)@,
            final(store)@,
            final(gateway)@,
            operator,
            form.title@,
            form.html_content@,
            form.text_content@,
            form.idempotency_key@,
            r@,
        ),
{
    let op = match operator {
        Some(op) => op,
        None => {
            let r = StoredResponse::with_header(401, "WWW-Authenticate", "Basic realm=\"publish\"");
            proof {
                assert(r@ == publish_unauthorized_response());
            }
            return r;
        },
    };
    let key = match IdempotencyKey::parse(form.idempotency_key.clone()) {
        Ok(k) => k,
        Err(_) => {
            let r = StoredResponse::empty(400);
            proof {
                assert(r@ == publish_invalid_response());
            }
            return r;
        },
    };
    if form.title.as_str().is_empty() || form.html_content.as_str().is_empty()
        || form.text_content.as_str().is_empty() {
        let r = StoredResponse::empty(400);
        proof {
            assert(r@ == publish_invalid_response());
        }
        return r;
    }
    match store.try_claim(op, &key) {
        BeginOutcome::Replay(saved) => saved,
        BeginOutcome::InFlight => {
            let r = StoredResponse::empty(409);
            proof {
                assert(r@ == publish_in_flight_response());
            }
            r
        },
        BeginOutcome::Claimed => {
            let ghost pre_s = old(store)@;
            let ghost mid_s = store@;
            let ghost pre_g = gateway@;
            // Fan out to exactly the confirmed subscribers, best effort: a
            // failed recipient is skipped, never the rest of the batch.
            let recipients = store.confirmed_emails();
            let ghost recs = recipients@.map_values(|s: String| s@);
            let n = recipients.len();
            let mut i: usize = 0;
            proof {
                assert(gateway@.attempts =~= pre_g.attempts + issue_emails(
                    recs.take(0),
                    form.title@,
                    form.html_content@,
                    form.text_content@,
                ));
            }
            while i < n
                invariant
                    n == recipients@.len(),
                    i <= n,
                    recs == recipients@.map_values(|s: String| s@),
                    gateway@.attempts == pre_g.attempts + issue_emails(
                        recs.take(i as int),
                        form.title@,
                        form.html_content@,
                        form.text_content@,
                    ),
                    gateway@.failing == pre_g.failing,
                decreases n - i,
            {
                let email = OutboundEmail {
                    to: recipients[i].clone(),
                    subject: form.title.clone(),
                    html_content: form.html_content.clone(),
                    text_content: form.text_content.clone(),
                };
                // Best effort: an individual failure is recorded by the
                // gateway and the batch goes on.
                match gateway.send(email) {
                    Ok(()) => {},
                    Err(_) => {},
                }
                proof {
                    assert(recs.take(i + 1) =~= recs.take(i as int).push(recs[i as int]));
                    assert(issue_emails(
                        recs.take(i + 1),
                        form.title@,
                        form.html_content@,
                        form.text_content@,
                    ) =~= issue_emails(
                        recs.take(i as int),
                        form.title@,
                        form.html_content@,
                        form.text_content@,
                    ).push(
                        issue_email(
                            recs[i as int],
                            form.title@,
                            form.html_content@,
                            form.text_content@,
                        ),
                    ));
                    assert(gateway@.attempts =~= pre_g.attempts + issue_emails(
                        recs.take(i + 1),
                        form.title@,
                        form.html_content@,
                        form.text_content@,
                    ));
                }
                i = i + 1;
            }
            proof {
                assert(recs.take(n as int) =~= recs);
            }
            let r = StoredResponse::with_header(303, "Location", "/admin/newsletter");
            proof {
                assert(r@ == publish_success_response());
            }
            let saved = store.save_response(op, &key, r.duplicate());
            proof {
                // The claim this execution just made is unresolved, so saving
                // against it cannot be refused.
                let v = pre_s.idempotency.len() as int;
                assert(mid_s.idempotency[v].operator_id == op && mid_s.idempotency[v].key == key@);
                assert(mid_s.has_claim(op, key@));
                let w = mid_s.claim_index(op, key@);
                assert(mid_s.idempotency[w].operator_id == op && mid_s.idempotency[w].key == key@);
                assert(w == pre_s.idempotency.len());
                assert(mid_s.claim_response(op, key@) is None);
                assert(saved is Ok);
                // The claim and its completion collapse into one appended,
                // resolved record.
                assert(store@.idempotency =~= pre_s.idempotency.push(
                    IdempotencyView {
                        operator_id: op,
                        key: key@,
                        seq: pre_s.idempotency.len() as usize,
                        response: Some(r@),
                    },
                ));
            }
            r
        },
    }
}

} // verus!
