//! The laws the design promises, stated over the transition relations that
//! the executable functions' contracts use, and proved once and for all:
//! subscribe-then-confirm reaches `Confirmed` and is idempotent; a key is
//! claimed at most once and claims never disappear; a first publish fans out
//! to exactly the confirmed subscribers whatever the gateway fails, and a
//! repeated publish replays the identical response without touching
//! anything.

use vstd::prelude::*;
use crate::gateway::GatewayView;
use crate::response::ResponseView;
use crate::routes::newsletters::{
    issue_email,
    issue_emails,
    issue_ok,
    publish_rel,
    publish_success_response,
};
use crate::routes::subscriptions::subscribe_applied;
use crate::store::{
    claim_transition,
    complete_transition,
    confirm_transition,
    confirmed_emails_of,
    new_subscription_transition,
    token_added_transition,
    StoreView,
    SubscriberStatus,
    SubscriberView,
};

verus! {

/// Law: for a fresh email, subscribing and then redeeming the issued token
/// finds exactly the new subscriber, still pending; confirming promotes that
/// subscriber to `Confirmed`; and the token still redeems afterwards, so a
/// second visit of the link meets the idempotent no-op below.
pub proof fn lemma_subscribe_then_confirm(
    pre: StoreView,
    mid: StoreView,
    post: StoreView,
    email: Seq<char>,
    name: Seq<char>,
    id: u128,
    token: Seq<char>,
    at: i64,
)
    requires
        pre.wf(),
        !pre.has_email(email),
        subscribe_applied(pre, mid, email, name, id, token, at),
        confirm_transition(mid, post, id),
    ensures
        mid.redeem(token) == Some(id),
        mid.status_of(id) == SubscriberStatus::PendingConfirmation,
        post.status_of(id) == SubscriberStatus::Confirmed,
        post.redeem(token) == Some(id),
{
    let nt = pre.tokens.len() as int;
    let ns = pre.subscribers.len() as int;
    assert(mid.tokens[nt].token == token && mid.tokens[nt].subscriber_id == id);
    assert(mid.has_token(token));
    let w = mid.token_index(token);
    assert(mid.tokens[w].token == token);
    assert(w == nt) by {
        if w < nt {
            assert(pre.tokens[w].token == token);
            assert(pre.has_token(token));
        }
    }
    assert(mid.subscribers[ns].id == id);
    assert(mid.has_subscriber_id(id));
    let v = mid.subscriber_index(id);
    assert(mid.subscribers[v].id == id);
    assert(v == ns) by {
        if v < ns {
            assert(pre.subscribers[v].id == id);
            assert(pre.has_subscriber_id(id));
        }
    }
    assert(mid.status_of(id) == SubscriberStatus::PendingConfirmation);

    assert(post.subscribers[ns].id == id && post.subscribers[ns].status
        == SubscriberStatus::Confirmed);
    assert(post.has_subscriber_id(id));
    let u = post.subscriber_index(id);
    assert(post.subscribers[u].id == id);
    assert(u == ns) by {
        if u != ns {
            assert(post.subscribers[u] == mid.subscribers[u] || post.subscribers[u]
                == SubscriberView { status: SubscriberStatus::Confirmed, ..mid.subscribers[u] });
            assert(mid.subscribers[u].id == id);
            if u < ns {
                assert(pre.subscribers[u].id == id);
                assert(pre.has_subscriber_id(id));
            }
        }
    }
    assert(post.tokens == mid.tokens);
    assert(post.has_token(token));
    let w2 = post.token_index(token);
    assert(post.tokens[w2].token == token);
    assert(w2 == nt) by {
        if w2 < nt {
            assert(pre.tokens[w2].token == token);
            assert(pre.has_token(token));
        }
    }
}

/// Law: confirming a subscriber twice is the same as confirming once — the
/// second confirmation does not change the store at all.
pub proof fn lemma_confirm_idempotent(
    pre: StoreView,
    mid: StoreView,
    post: StoreView,
    id: u128,
)
    requires
        confirm_transition(pre, mid, id),
        confirm_transition(mid, post, id),
    ensures
        post == mid,
{
    assert forall|i: int| 0 <= i < mid.subscribers.len() implies #[trigger] post.subscribers[i]
        == mid.subscribers[i] by {
        if mid.subscribers[i].id == id {
            assert(mid.subscribers[i].status == SubscriberStatus::Confirmed);
        }
    }
    assert(post.subscribers =~= mid.subscribers);
}

/// Law: at most one execution can ever claim a key. After a claim, the
/// (operator, key) pair is present, and a claim transition for the same pair
/// can never fire again from that state.
pub proof fn lemma_at_most_one_claim(
    pre: StoreView,
    post: StoreView,
    op: u128,
    key: Seq<char>,
)
    requires
        claim_transition(pre, post, op, key),
    ensures
        post.has_claim(op, key),
        forall|later: StoreView| !claim_transition(post, later, op, key),
{
    let n = pre.idempotency.len() as int;
    assert(post.idempotency[n].operator_id == op && post.idempotency[n].key == key);
    assert(post.has_claim(op, key));
}

/// Law: no transition of the store removes an idempotency record — whatever
/// else happens (a new subscription, a re-subscription token, a
/// confirmation, another claim, a completion), a claimed pair stays
/// claimed. Together with the law above, a concurrent publish of the same
/// key can only observe the claim: it answers in-flight or replay, never a
/// second execution.
pub proof fn lemma_claims_persist(
    pre: StoreView,
    post: StoreView,
    op: u128,
    key: Seq<char>,
    id: u128,
    email: Seq<char>,
    name: Seq<char>,
    at: i64,
    token: Seq<char>,
    other_op: u128,
    other_key: Seq<char>,
    resp: ResponseView,
)
    requires
        pre.has_claim(op, key),
        new_subscription_transition(pre, post, id, email, name, at, token)
            || token_added_transition(pre, post, id, token)
            || confirm_transition(pre, post, id)
            || claim_transition(pre, post, other_op, other_key)
            || complete_transition(pre, post, other_op, other_key, resp),
    ensures
        post.has_claim(op, key),
{
    let i = choose|i: int|
        0 <= i < pre.idempotency.len() && (#[trigger] pre.idempotency[i]).operator_id == op
            && pre.idempotency[i].key == key;
    if complete_transition(pre, post, other_op, other_key, resp) {
        assert(post.idempotency[i].operator_id == op && post.idempotency[i].key == key);
    } else {
        assert(post.idempotency[i] == pre.idempotency[i]);
    }
    assert(post.has_claim(op, key));
}

/// Law: a subscriber's status only advances — once `Confirmed`, no
/// transition of the store ever takes the subscriber back to pending, and
/// the row never disappears.
pub proof fn lemma_status_monotone(
    pre: StoreView,
    post: StoreView,
    sid: u128,
    id: u128,
    email: Seq<char>,
    name: Seq<char>,
    at: i64,
    token: Seq<char>,
    op: u128,
    key: Seq<char>,
    resp: ResponseView,
)
    requires
        pre.wf(),
        pre.has_subscriber_id(sid),
        pre.status_of(sid) == SubscriberStatus::Confirmed,
        new_subscription_transition(pre, post, id, email, name, at, token)
            || token_added_transition(pre, post, id, token)
            || confirm_transition(pre, post, id)
            || claim_transition(pre, post, op, key)
            || complete_transition(pre, post, op, key, resp),
    ensures
        post.has_subscriber_id(sid),
        post.status_of(sid) == SubscriberStatus::Confirmed,
{
    let i = pre.subscriber_index(sid);
    assert(0 <= i < pre.subscribers.len() && pre.subscribers[i].id == sid);
    if new_subscription_transition(pre, post, id, email, name, at, token) {
        assert(post.subscribers[i].id == sid && post.subscribers[i].status
            == SubscriberStatus::Confirmed);
        assert(post.has_subscriber_id(sid));
        let j = post.subscriber_index(sid);
        assert(post.subscribers[j].id == sid);
        assert(j == i) by {
            if j != i {
                if j < pre.subscribers.len() {
                    assert(pre.subscribers[j].id == sid && pre.subscribers[i].id == sid);
                } else {
                    // the appended row carries the fresh id, which sid is not
                    assert(post.subscribers[j].id == id);
                    assert(pre.has_subscriber_id(sid));
                }
            }
        }
    } else if confirm_transition(pre, post, id) {
        assert(post.subscribers[i].id == sid && post.subscribers[i].status
            == SubscriberStatus::Confirmed);
        assert(post.has_subscriber_id(sid));
        let j = post.subscriber_index(sid);
        assert(post.subscribers[j].id == sid);
        assert(j == i) by {
            if j != i {
                assert(pre.subscribers[j].id == sid && pre.subscribers[i].id == sid);
            }
        }
    } else {
        assert(post.subscribers == pre.subscribers);
    }
}

/// Law: publishing twice with the same operator, key and payload, starting
/// from the key's first execution, yields byte-identical responses, and the
/// second call changes nothing: not the store, and not the gateway's log of
/// delivery attempts — so there is exactly one delivery attempt per
/// confirmed subscriber across both calls.
pub proof fn lemma_publish_idempotent(
    s0: StoreView,
    g0: GatewayView,
    s1: StoreView,
    g1: GatewayView,
    s2: StoreView,
    g2: GatewayView,
    op: u128,
    title: Seq<char>,
    html: Seq<char>,
    text: Seq<char>,
    key: Seq<char>,
    r1: ResponseView,
    r2: ResponseView,
)
    requires
        s0.wf(),
        !s0.has_claim(op, key),
        issue_ok(title, html, text, key),
        publish_rel(s0, g0, s1, g1, Some(op), title, html, text, key, r1),
        publish_rel(s1, g1, s2, g2, Some(op), title, html, text, key, r2),
    ensures
        r1 == publish_success_response(),
        r2 == r1,
        s2 == s1,
        g2 == g1,
{
    let n = s0.idempotency.len() as int;
    assert(s1.idempotency[n].operator_id == op && s1.idempotency[n].key == key);
    assert(s1.has_claim(op, key));
    let w = s1.claim_index(op, key);
    assert(s1.idempotency[w].operator_id == op && s1.idempotency[w].key == key);
    assert(w == n) by {
        if w < n {
            assert(s0.idempotency[w].operator_id == op && s0.idempotency[w].key == key);
            assert(s0.has_claim(op, key));
        }
    }
    assert(s1.claim_response(op, key) == Some(r1));
}

/// Law: fan-out isolation. A first execution of a key always completes with
/// the 303 success response and attempts delivery to the whole confirmed
/// set, whatever recipients the gateway fails for: one bad address never
/// blocks the rest of the list, and never fails the command.
pub proof fn lemma_fanout_best_effort(
    s0: StoreView,
    g0: GatewayView,
    s1: StoreView,
    g1: GatewayView,
    op: u128,
    title: Seq<char>,
    html: Seq<char>,
    text: Seq<char>,
    key: Seq<char>,
    r: ResponseView,
)
    requires
        !s0.has_claim(op, key),
        issue_ok(title, html, text, key),
        publish_rel(s0, g0, s1, g1, Some(op), title, html, text, key, r),
    ensures
        r == publish_success_response(),
        g1.attempts == g0.attempts + issue_emails(s0.confirmed_emails(), title, html, text),
        g1.failing == g0.failing,
{
}

/// Law: a first execution attempts delivery to exactly the confirmed
/// subscribers, in order — the i-th new attempt carries the issue to the
/// i-th confirmed email, and there are no other new attempts. In
/// particular, no unconfirmed subscriber is ever attempted, and with a
/// gateway that fails nobody, every confirmed subscriber's delivery
/// succeeds.
pub proof fn lemma_delivery_exactly_confirmed(
    s0: StoreView,
    g0: GatewayView,
    s1: StoreView,
    g1: GatewayView,
    op: u128,
    title: Seq<char>,
    html: Seq<char>,
    text: Seq<char>,
    key: Seq<char>,
    r: ResponseView,
)
    requires
        !s0.has_claim(op, key),
        issue_ok(title, html, text, key),
        publish_rel(s0, g0, s1, g1, Some(op), title, html, text, key, r),
    ensures
        g1.attempts.len() == g0.attempts.len() + s0.confirmed_emails().len(),
        forall|i: int|
            0 <= i < s0.confirmed_emails().len() ==> g1.attempts[g0.attempts.len() + i]
                == issue_email(#[trigger] s0.confirmed_emails()[i], title, html, text),
{
}

/// Law: an email is in the fan-out list exactly when some subscriber row
/// holds it with status `Confirmed` — the list has no one else on it.
pub proof fn lemma_confirmed_emails_exact(subs: Seq<SubscriberView>, email: Seq<char>)
    ensures
        confirmed_emails_of(subs).contains(email) <==> exists|i: int|
            0 <= i < subs.len() && (#[trigger] subs[i]).email == email && subs[i].status
                == SubscriberStatus::Confirmed,
    decreases subs.len(),
{
    if subs.len() == 0 {
        assert(!confirmed_emails_of(subs).contains(email));
        assert(!(exists|i: int|
            0 <= i < subs.len() && (#[trigger] subs[i]).email == email && subs[i].status
                == SubscriberStatus::Confirmed));
    } else {
        let front = subs.drop_last();
        lemma_confirmed_emails_exact(front, email);
        let last = subs.last();
        if last.status == SubscriberStatus::Confirmed {
            assert(confirmed_emails_of(subs) == confirmed_emails_of(front) + seq![last.email]);
        } else {
            assert(confirmed_emails_of(subs) == confirmed_emails_of(front)
                + Seq::<Seq<char>>::empty());
            assert(confirmed_emails_of(subs) =~= confirmed_emails_of(front));
        }
        if confirmed_emails_of(subs).contains(email) {
            let j = choose|j: int|
                0 <= j < confirmed_emails_of(subs).len() && confirmed_emails_of(subs)[j] == email;
            if j < confirmed_emails_of(front).len() {
                assert(confirmed_emails_of(front).contains(email));
                let i = choose|i: int|
                    0 <= i < front.len() && (#[trigger] front[i]).email == email && front[i].status
                        == SubscriberStatus::Confirmed;
                assert(subs[i].email == email && subs[i].status == SubscriberStatus::Confirmed);
            } else {
                assert(last.status == SubscriberStatus::Confirmed && last.email == email);
                assert(subs[subs.len() - 1].email == email);
            }
        }
        if exists|i: int|
            0 <= i < subs.len() && (#[trigger] subs[i]).email == email && subs[i].status
                == SubscriberStatus::Confirmed {
            let i = choose|i: int|
                0 <= i < subs.len() && (#[trigger] subs[i]).email == email && subs[i].status
                    == SubscriberStatus::Confirmed;
            if i < subs.len() - 1 {
                assert(front[i].email == email && front[i].status == SubscriberStatus::Confirmed);
                assert(confirmed_emails_of(front).contains(email));
                let j = choose|j: int|
                    0 <= j < confirmed_emails_of(front).len() && confirmed_emails_of(front)[j]
                        == email;
                assert(confirmed_emails_of(subs)[j] == email);
                assert(confirmed_emails_of(subs).contains(email));
            } else {
                assert(last.email == email && last.status == SubscriberStatus::Confirmed);
                let j = confirmed_emails_of(front).len() as int;
                assert(confirmed_emails_of(subs)[j] == email);
                assert(confirmed_emails_of(subs).contains(email));
            }
        }
    }
}

} // verus!
