//! The persistent store: subscribers, confirmation tokens, idempotency
//! records. It is the only shared mutable state of the service; every
//! cross-request guarantee (email uniqueness, token uniqueness, at-most-one
//! claim per idempotency key) is enforced here, and each operation is an
//! atomic step: it either applies its whole transition or leaves the store
//! unchanged.

use vstd::prelude::*;
use crate::domain::subscriber_email::SubscriberEmail;
use crate::domain::subscriber_name::SubscriberName;
use crate::idempotency::key::IdempotencyKey;
use crate::response::{ResponseView, StoredResponse};
use crate::text::str_eq;

verus! {

/// A subscriber's lifecycle state. The only transition is
/// `PendingConfirmation` to `Confirmed`; there is no way back.
#[derive(Clone, Copy, PartialEq, Eq, Structural, Debug)]
pub enum SubscriberStatus {
    PendingConfirmation,
    Confirmed,
}

/// Why a store operation was refused. Every refusal leaves the store
/// unchanged.
#[derive(Clone, Copy, PartialEq, Eq, Structural, Debug)]
pub enum StoreError {
    /// A subscriber with this id already exists.
    IdTaken,
    /// A subscriber with this email already exists.
    EmailTaken,
    /// This confirmation token is already mapped.
    TokenTaken,
    /// No subscriber has this id.
    UnknownSubscriber,
    /// No claim exists for this (operator, key) pair.
    NoClaim,
    /// The claim for this (operator, key) pair already carries a response.
    AlreadyCompleted,
}

/// What the idempotency guard answers when an operator tries to begin a
/// publish execution under a key.
pub enum BeginOutcome {
    /// The key was free; the caller is the sole executor and must eventually
    /// save a response under the key.
    Claimed,
    /// Another execution holds the key and has not saved a response yet; the
    /// caller must not execute.
    InFlight,
    /// The key's execution already finished; the caller must return exactly
    /// this saved response and execute nothing.
    Replay(StoredResponse),
}

/// The mathematical value of a stored subscriber row.
pub struct SubscriberView {
    pub id: u128,
    pub email: Seq<char>,
    pub name: Seq<char>,
    pub status: SubscriberStatus,
    pub subscribed_at: i64,
}

/// The mathematical value of a stored (token, subscriber) mapping.
pub struct TokenView {
    pub token: Seq<char>,
    pub subscriber_id: u128,
}

/// The mathematical value of a stored idempotency record.
pub struct IdempotencyView {
    pub operator_id: u128,
    pub key: Seq<char>,
    /// Order of first successful claims; claims are never removed, so the
    /// sequence numbers grow monotonically.
    pub seq: usize,
    /// `None` while the execution that claimed the key is still in flight.
    pub response: Option<ResponseView>,
}

/// The mathematical value of the whole store.
pub struct StoreView {
    pub subscribers: Seq<SubscriberView>,
    pub tokens: Seq<TokenView>,
    pub idempotency: Seq<IdempotencyView>,
}

struct Subscriber {
    id: u128,
    email: SubscriberEmail,
    name: SubscriberName,
    status: SubscriberStatus,
    subscribed_at: i64,
}

impl View for Subscriber {
    type V = SubscriberView;

    closed spec fn view(&self) -> SubscriberView {
        SubscriberView {
            id: self.id,
            email: self.email@,
            name: self.name@,
            status: self.status,
            subscribed_at: self.subscribed_at,
        }
    }
}

struct TokenRecord {
    token: String,
    subscriber_id: u128,
}

impl View for TokenRecord {
    type V = TokenView;

    closed spec fn view(&self) -> TokenView {
        TokenView { token: self.token@, subscriber_id: self.subscriber_id }
    }
}

struct IdempotencyRecord {
    operator_id: u128,
    key: String,
    seq: usize,
    response: Option<StoredResponse>,
}

impl View for IdempotencyRecord {
    type V = IdempotencyView;

    closed spec fn view(&self) -> IdempotencyView {
        IdempotencyView {
            operator_id: self.operator_id,
            key: self.key@,
            seq: self.seq,
            response: match self.response {
                Some(r) => Some(r@),
                None => None,
            },
        }
    }
}

/// The durable state of the service, all tables in one place.
pub struct Store {
    subscribers: Vec<Subscriber>,
    tokens: Vec<TokenRecord>,
    idempotency: Vec<IdempotencyRecord>,
}

impl View for Store {
    type V = StoreView;

    closed spec fn view(&self) -> StoreView {
        StoreView {
            subscribers: self.subscribers@.map_values(|s: Subscriber| s@),
            tokens: self.tokens@.map_values(|t: TokenRecord| t@),
            idempotency: self.idempotency@.map_values(|r: IdempotencyRecord| r@),
        }
    }
}

/// The emails of the confirmed subscribers, in insertion order.
pub open spec fn confirmed_emails_of(subs: Seq<SubscriberView>) -> Seq<Seq<char>>
    decreases subs.len(),
{
    if subs.len() == 0 {
        Seq::empty()
    } else {
        confirmed_emails_of(subs.drop_last()) + (
        if subs.last().status == SubscriberStatus::Confirmed {
            seq![subs.last().email]
        } else {
            Seq::empty()
        })
    }
}

impl StoreView {
    /// The store as it is before anything happened.
    pub open spec fn empty() -> StoreView {
        StoreView { subscribers: Seq::empty(), tokens: Seq::empty(), idempotency: Seq::empty() }
    }

    pub open spec fn has_subscriber_id(self, id: u128) -> bool {
        exists|i: int|
            0 <= i < self.subscribers.len() && (#[trigger] self.subscribers[i]).id == id
    }

    pub open spec fn subscriber_index(self, id: u128) -> int {
        choose|i: int|
            0 <= i < self.subscribers.len() && (#[trigger] self.subscribers[i]).id == id
    }

    /// The subscriber with the given id (meaningful when it exists and ids
    /// are unique).
    pub open spec fn subscriber(self, id: u128) -> SubscriberView {
        self.subscribers[self.subscriber_index(id)]
    }

    pub open spec fn status_of(self, id: u128) -> SubscriberStatus {
        self.subscriber(id).status
    }

    pub open spec fn has_email(self, email: Seq<char>) -> bool {
        exists|i: int|
            0 <= i < self.subscribers.len() && (#[trigger] self.subscribers[i]).email == email
    }

    pub open spec fn email_index(self, email: Seq<char>) -> int {
        choose|i: int|
            0 <= i < self.subscribers.len() && (#[trigger] self.subscribers[i]).email == email
    }

    pub open spec fn has_token(self, token: Seq<char>) -> bool {
        exists|i: int|
            0 <= i < self.tokens.len() && (#[trigger] self.tokens[i]).token == token
    }

    pub open spec fn token_index(self, token: Seq<char>) -> int {
        choose|i: int|
            0 <= i < self.tokens.len() && (#[trigger] self.tokens[i]).token == token
    }

    /// What redeeming a token yields: the subscriber it is mapped to, or
    /// nothing for an unknown token.
    pub open spec fn redeem(self, token: Seq<char>) -> Option<u128> {
        if self.has_token(token) {
            Some(self.tokens[self.token_index(token)].subscriber_id)
        } else {
            None
        }
    }

    pub open spec fn has_claim(self, operator_id: u128, key: Seq<char>) -> bool {
        exists|i: int|
            0 <= i < self.idempotency.len() && (#[trigger] self.idempotency[i]).operator_id
                == operator_id && self.idempotency[i].key == key
    }

    pub open spec fn claim_index(self, operator_id: u128, key: Seq<char>) -> int {
        choose|i: int|
            0 <= i < self.idempotency.len() && (#[trigger] self.idempotency[i]).operator_id
                == operator_id && self.idempotency[i].key == key
    }

    /// The saved response of a claim, or `None` while it is unresolved
    /// (meaningful when the claim exists).
    pub open spec fn claim_response(self, operator_id: u128, key: Seq<char>) -> Option<
        ResponseView,
    > {
        self.idempotency[self.claim_index(operator_id, key)].response
    }

    pub open spec fn confirmed_emails(self) -> Seq<Seq<char>> {
        confirmed_emails_of(self.subscribers)
    }

    /// Well-formedness: subscriber ids and emails are unique, tokens are
    /// unique and map to existing subscribers, and each (operator, key) pair
    /// has at most one idempotency record.
    pub open spec fn wf(self) -> bool {
        &&& forall|i: int, j: int|
            0 <= i < self.subscribers.len() && 0 <= j < self.subscribers.len() && i != j
                ==> (#[trigger] self.subscribers[i]).id != (#[trigger] self.subscribers[j]).id
        &&& forall|i: int, j: int|
            0 <= i < self.subscribers.len() && 0 <= j < self.subscribers.len() && i != j
                ==> (#[trigger] self.subscribers[i]).email != (#[trigger] self.subscribers[j]).email
        &&& forall|i: int, j: int|
            0 <= i < self.tokens.len() && 0 <= j < self.tokens.len() && i != j
                ==> (#[trigger] self.tokens[i]).token != (#[trigger] self.tokens[j]).token
        &&& forall|i: int|
            0 <= i < self.tokens.len() ==> self.has_subscriber_id(
                (#[trigger] self.tokens[i]).subscriber_id,
            )
        &&& forall|i: int, j: int|
            0 <= i < self.idempotency.len() && 0 <= j < self.idempotency.len() && i != j ==> !(
            (#[trigger] self.idempotency[i]).operator_id == (
            #[trigger] self.idempotency[j]).operator_id && self.idempotency[i].key
                == self.idempotency[j].key)
    }
}

/// What a new subscription does to the store: one pending subscriber row and
/// one token mapping appear atomically; nothing else moves. It can only fire
/// when the id, the email and the token are all fresh.
pub open spec fn new_subscription_transition(
    pre: StoreView,
    post: StoreView,
    id: u128,
    email: Seq<char>,
    name: Seq<char>,
    at: i64,
    token: Seq<char>,
) -> bool {
    &&& !pre.has_subscriber_id(id)
    &&& !pre.has_email(email)
    &&& !pre.has_token(token)
    &&& post.subscribers == pre.subscribers.push(
        SubscriberView {
            id,
            email,
            name,
            status: SubscriberStatus::PendingConfirmation,
            subscribed_at: at,
        },
    )
    &&& post.tokens == pre.tokens.push(TokenView { token, subscriber_id: id })
    &&& post.idempotency == pre.idempotency
}

/// What re-subscription does to the store: a fresh token is mapped to an
/// existing subscriber; the subscriber rows themselves do not move.
pub open spec fn token_added_transition(
    pre: StoreView,
    post: StoreView,
    id: u128,
    token: Seq<char>,
) -> bool {
    &&& pre.has_subscriber_id(id)
    &&& !pre.has_token(token)
    &&& post.subscribers == pre.subscribers
    &&& post.tokens == pre.tokens.push(TokenView { token, subscriber_id: id })
    &&& post.idempotency == pre.idempotency
}

/// What confirmation does to the store: the subscriber with the given id is
/// set to `Confirmed`; every other row, and the other tables, stay as they
/// were. Confirming an already confirmed subscriber changes nothing.
pub open spec fn confirm_transition(pre: StoreView, post: StoreView, id: u128) -> bool {
    &&& pre.has_subscriber_id(id)
    &&& post.subscribers.len() == pre.subscribers.len()
    &&& forall|i: int|
        0 <= i < pre.subscribers.len() ==> #[trigger] post.subscribers[i] == (
        if pre.subscribers[i].id == id {
            SubscriberView { status: SubscriberStatus::Confirmed, ..pre.subscribers[i] }
        } else {
            pre.subscribers[i]
        })
    &&& post.tokens == pre.tokens
    &&& post.idempotency == pre.idempotency
}

/// What a successful claim does to the store: a record for (operator, key)
/// with no response yet is appended, with the next sequence number. It can
/// only fire when the pair had no record.
pub open spec fn claim_transition(
    pre: StoreView,
    post: StoreView,
    operator_id: u128,
    key: Seq<char>,
) -> bool {
    &&& !pre.has_claim(operator_id, key)
    &&& post.subscribers == pre.subscribers
    &&& post.tokens == pre.tokens
    &&& post.idempotency == pre.idempotency.push(
        IdempotencyView {
            operator_id,
            key,
            seq: pre.idempotency.len() as usize,
            response: None,
        },
    )
}

/// What completing a claim does to the store: the record for (operator, key),
/// which until now carried no response, is given one; nothing else moves.
pub open spec fn complete_transition(
    pre: StoreView,
    post: StoreView,
    operator_id: u128,
    key: Seq<char>,
    resp: ResponseView,
) -> bool {
    &&& pre.has_claim(operator_id, key)
    &&& pre.claim_response(operator_id, key) is None
    &&& post.subscribers == pre.subscribers
    &&& post.tokens == pre.tokens
    &&& post.idempotency.len() == pre.idempotency.len()
    &&& forall|i: int|
        0 <= i < pre.idempotency.len() ==> #[trigger] post.idempotency[i] == (
        if pre.idempotency[i].operator_id == operator_id && pre.idempotency[i].key == key {
            IdempotencyView { response: Some(resp), ..pre.idempotency[i] }
        } else {
            pre.idempotency[i]
        })
}

impl Store {
    /// An empty store.
    pub fn new() -> (s: Store)
        ensures
            s@ == StoreView::empty(),
            s@.wf(),
    {
        let s = Store { subscribers: Vec::new(), tokens: Vec::new(), idempotency: Vec::new() };
        proof {
            assert(s@.subscribers =~= Seq::<SubscriberView>::empty());
            assert(s@.tokens =~= Seq::<TokenView>::empty());
            assert(s@.idempotency =~= Seq::<IdempotencyView>::empty());
        }
        s
    }

    fn position_of_id(&self, id: u128) -> (r: Option<usize>)
        ensures
            match r {
                Some(i) => i < self@.subscribers.len() && self@.subscribers[i as int].id == id,
                None => !self@.has_subscriber_id(id),
            },
    {
        let n = self.subscribers.len();
        let mut i: usize = 0;
        while i < n
            invariant
                n == self.subscribers@.len(),
                i <= n,
                self@.subscribers.len() == n,
                forall|j: int| 0 <= j < i ==> (#[trigger] self@.subscribers[j]).id != id,
            decreases n - i,
        {
            if self.subscribers[i].id == id {
                return Some(i);
            }
            i = i + 1;
        }
        None
    }

    fn position_of_email(&self, email: &str) -> (r: Option<usize>)
        ensures
            match r {
                Some(i) => i < self@.subscribers.len() && self@.subscribers[i as int].email
                    == email@,
                None => !self@.has_email(email@),
            },
    {
        let n = self.subscribers.len();
        let mut i: usize = 0;
        while i < n
            invariant
                n == self.subscribers@.len(),
                i <= n,
                self@.subscribers.len() == n,
                forall|j: int| 0 <= j < i ==> (#[trigger] self@.subscribers[j]).email != email@,
            decreases n - i,
        {
            if str_eq(self.subscribers[i].email.as_str(), email) {
                return Some(i);
            }
            i = i + 1;
        }
        None
    }

    fn position_of_token(&self, token: &str) -> (r: Option<usize>)
        ensures
            match r {
                Some(i) => i < self@.tokens.len() && self@.tokens[i as int].token == token@,
                None => !self@.has_token(token@),
            },
    {
        let n = self.tokens.len();
        let mut i: usize = 0;
        while i < n
            invariant
                n == self.tokens@.len(),
                i <= n,
                self@.tokens.len() == n,
                forall|j: int| 0 <= j < i ==> (#[trigger] self@.tokens[j]).token != token@,
            decreases n - i,
        {
            if str_eq(self.tokens[i].token.as_str(), token) {
                return Some(i);
            }
            i = i + 1;
        }
        None
    }

    fn position_of_claim(&self, operator_id: u128, key: &str) -> (r: Option<usize>)
        ensures
            match r {
                Some(i) => i < self@.idempotency.len() && self@.idempotency[i as int].operator_id
                    == operator_id && self@.idempotency[i as int].key == key@,
                None => !self@.has_claim(operator_id, key@),
            },
    {
        let n = self.idempotency.len();
        let mut i: usize = 0;
        while i < n
            invariant
                n == self.idempotency@.len(),
                i <= n,
                self@.idempotency.len() == n,
                forall|j: int|
                    0 <= j < i ==> !((#[trigger] self@.idempotency[j]).operator_id == operator_id
                        && self@.idempotency[j].key == key@),
            decreases n - i,
        {
            if self.idempotency[i].operator_id == operator_id && str_eq(
                self.idempotency[i].key.as_str(),
                key,
            ) {
                return Some(i);
            }
            i = i + 1;
        }
        None
    }

    /// The subscribe transaction: insert a pending subscriber row and its
    /// confirmation token as one atomic step — both appear, or (on any
    /// refusal) neither does.
    pub fn create_subscriber_with_token(
        &mut self,
        id: u128,
        email: SubscriberEmail,
        name: SubscriberName,
        subscribed_at: i64,
        token: String,
    ) -> (r: Result<(), StoreError>)
        requires
            old(self)@.wf(),
        ensures
            final(self)@.wf(),
            match r {
                Ok(()) => new_subscription_transition(
                    old(self)@,
                    final(self)@,
                    id,
                    email@,
                    name@,
                    subscribed_at,
                    token@,
                ),
                Err(StoreError::IdTaken) => old(self)@.has_subscriber_id(id) && final(self)@
                    == old(self)@,
                Err(StoreError::EmailTaken) => !old(self)@.has_subscriber_id(id) && old(
                    self,
                )@.has_email(email@) && final(self)@ == old(self)@,
                Err(StoreError::TokenTaken) => !old(self)@.has_subscriber_id(id) && !old(
                    self,
                )@.has_email(email@) && old(self)@.has_token(token@) && final(self)@ == old(self)@,
                Err(_) => false,
            },
    {
        if self.position_of_id(id).is_some() {
            return Err(StoreError::IdTaken);
        }
        if self.position_of_email(email.as_str()).is_some() {
            return Err(StoreError::EmailTaken);
        }
        if self.position_of_token(token.as_str()).is_some() {
            return Err(StoreError::TokenTaken);
        }
        let ghost pre = self@;
        self.subscribers.push(
            Subscriber {
                id,
                email,
                name,
                status: SubscriberStatus::PendingConfirmation,
                subscribed_at,
            },
        );
        self.tokens.push(TokenRecord { token, subscriber_id: id });
        proof {
            let post = self@;
            assert(post.subscribers =~= pre.subscribers.push(
                SubscriberView {
                    id,
                    email: email@,
                    name: name@,
                    status: SubscriberStatus::PendingConfirmation,
                    subscribed_at,
                },
            ));
            assert(post.tokens =~= pre.tokens.push(TokenView { token: token@, subscriber_id: id }));
            assert(post.idempotency =~= pre.idempotency);
            assert forall|i: int|
                0 <= i < post.tokens.len() implies post.has_subscriber_id(
                (#[trigger] post.tokens[i]).subscriber_id,
            ) by {
                if i < pre.tokens.len() {
                    assert(pre.has_subscriber_id(pre.tokens[i].subscriber_id));
                    let w = pre.subscriber_index(pre.tokens[i].subscriber_id);
                    assert(post.subscribers[w].id == pre.tokens[i].subscriber_id);
                } else {
                    assert(post.subscribers[pre.subscribers.len() as int].id == id);
                }
            }
        }
        Ok(())
    }

    /// Map a fresh confirmation token to an existing subscriber; the step is
    /// refused, and nothing moves, if the token is taken or the subscriber
    /// unknown.
    pub fn store_token(&mut self, token: String, subscriber_id: u128) -> (r: Result<
        (),
        StoreError,
    >)
        requires
            old(self)@.wf(),
        ensures
            final(self)@.wf(),
            match r {
                Ok(()) => token_added_transition(old(self)@, final(self)@, subscriber_id, token@),
                Err(StoreError::TokenTaken) => old(self)@.has_token(token@) && final(self)@ == old(
                    self,
                )@,
                Err(StoreError::UnknownSubscriber) => !old(self)@.has_token(token@) && !old(
                    self,
                )@.has_subscriber_id(subscriber_id) && final(self)@ == old(self)@,
                Err(_) => false,
            },
    {
        if self.position_of_token(token.as_str()).is_some() {
            return Err(StoreError::TokenTaken);
        }
        if self.position_of_id(subscriber_id).is_none() {
            return Err(StoreError::UnknownSubscriber);
        }
        let ghost pre = self@;
        self.tokens.push(TokenRecord { token, subscriber_id });
        proof {
            let post = self@;
            assert(post.subscribers =~= pre.subscribers);
            assert(post.tokens =~= pre.tokens.push(
                TokenView { token: token@, subscriber_id },
            ));
            assert(post.idempotency =~= pre.idempotency);
            assert forall|i: int|
                0 <= i < post.tokens.len() implies post.has_subscriber_id(
                (#[trigger] post.tokens[i]).subscriber_id,
            ) by {
                if i < pre.tokens.len() {
                    assert(pre.has_subscriber_id(pre.tokens[i].subscriber_id));
                } else {
                    assert(pre.has_subscriber_id(subscriber_id));
                }
            }
        }
        Ok(())
    }

    /// Promote a subscriber to `Confirmed`. The step is idempotent: on an
    /// already confirmed subscriber it changes nothing and still succeeds.
    pub fn confirm_subscriber(&mut self, id: u128) -> (r: Result<(), StoreError>)
        requires
            old(self)@.wf(),
        ensures
            final(self)@.wf(),
            match r {
                Ok(()) => confirm_transition(old(self)@, final(self)@, id),
                Err(StoreError::UnknownSubscriber) => !old(self)@.has_subscriber_id(id)
                    && final(self)@ == old(self)@,
                Err(_) => false,
            },
    {
        let ghost pre = self@;
        match self.position_of_id(id) {
            Some(i) => {
                self.subscribers[i].status = SubscriberStatus::Confirmed;
                proof {
                    let post = self@;
                    assert(post.tokens =~= pre.tokens);
                    assert(post.idempotency =~= pre.idempotency);
                    assert forall|j: int|
                        0 <= j < pre.subscribers.len() implies #[trigger] post.subscribers[j] == (
                        if pre.subscribers[j].id == id {
                            SubscriberView {
                                status: SubscriberStatus::Confirmed,
                                ..pre.subscribers[j]
                            }
                        } else {
                            pre.subscribers[j]
                        }) by {
                        if j != i {
                            assert(pre.subscribers[j].id != id);
                        }
                    }
                    assert forall|j: int|
                        0 <= j < post.tokens.len() implies post.has_subscriber_id(
                        (#[trigger] post.tokens[j]).subscriber_id,
                    ) by {
                        assert(pre.has_subscriber_id(pre.tokens[j].subscriber_id));
                        let w = pre.subscriber_index(pre.tokens[j].subscriber_id);
                        assert(post.subscribers[w].id == pre.tokens[j].subscriber_id);
                    }
                }
                Ok(())
            },
            None => Err(StoreError::UnknownSubscriber),
        }
    }

    /// Atomically try to claim (operator, key): append a placeholder record
    /// if the pair is free, otherwise report the in-flight or finished
    /// execution that holds it. This is the store-level uniqueness that
    /// serializes concurrent publishes of one key.
    pub fn try_claim(&mut self, operator_id: u128, key: &IdempotencyKey) -> (r: BeginOutcome)
        requires
            old(self)@.wf(),
        ensures
            final(self)@.wf(),
            match r {
                BeginOutcome::Claimed => claim_transition(old(self)@, final(self)@, operator_id, key@),
                BeginOutcome::InFlight => old(self)@.has_claim(operator_id, key@)
                    && old(self)@.claim_response(operator_id, key@) is None
                    && final(self)@ == old(self)@,
                BeginOutcome::Replay(resp) => old(self)@.has_claim(operator_id, key@)
                    && old(self)@.claim_response(operator_id, key@) == Some(resp@)
                    && final(self)@ == old(self)@,
            },
    {
        let ghost pre = self@;
        match self.position_of_claim(operator_id, key.as_str()) {
            Some(i) => {
                proof {
                    assert(pre.has_claim(operator_id, key@));
                    let w = pre.claim_index(operator_id, key@);
                    assert(pre.idempotency[w].operator_id == operator_id && pre.idempotency[w].key
                        == key@);
                    assert(w == i);
                }
                match &self.idempotency[i].response {
                    Some(resp) => BeginOutcome::Replay(resp.duplicate()),
                    None => BeginOutcome::InFlight,
                }
            },
            None => {
                let seq_no = self.idempotency.len();
                self.idempotency.push(
                    IdempotencyRecord {
                        operator_id,
                        key: String::from_str(key.as_str()),
                        seq: seq_no,
                        response: None,
                    },
                );
                proof {
                    let post = self@;
                    assert(post.subscribers =~= pre.subscribers);
                    assert(post.tokens =~= pre.tokens);
                    assert(post.idempotency =~= pre.idempotency.push(
                        IdempotencyView {
                            operator_id,
                            key: key@,
                            seq: pre.idempotency.len() as usize,
                            response: None,
                        },
                    ));
                }
                BeginOutcome::Claimed
            },
        }
    }

    /// Save the final response against a claimed key; once saved it is
    /// immutable, and saving against a free or finished key is refused.
    pub fn save_response(
        &mut self,
        operator_id: u128,
        key: &IdempotencyKey,
        response: StoredResponse,
    ) -> (r: Result<(), StoreError>)
        requires
            old(self)@.wf(),
        ensures
            final(self)@.wf(),
            match r {
                Ok(()) => complete_transition(
                    old(self)@,
                    final(self)@,
                    operator_id,
                    key@,
                    response@,
                ),
                Err(StoreError::NoClaim) => !old(self)@.has_claim(operator_id, key@)
                    && final(self)@ == old(self)@,
                Err(StoreError::AlreadyCompleted) => old(self)@.has_claim(operator_id, key@)
                    && old(self)@.claim_response(operator_id, key@) is Some
                    && final(self)@ == old(self)@,
                Err(_) => false,
            },
    {
        let ghost pre = self@;
        match self.position_of_claim(operator_id, key.as_str()) {
            Some(i) => {
                proof {
                    assert(pre.has_claim(operator_id, key@));
                    let w = pre.claim_index(operator_id, key@);
                    assert(pre.idempotency[w].operator_id == operator_id && pre.idempotency[w].key
                        == key@);
                    assert(w == i);
                }
                if self.idempotency[i].response.is_some() {
                    return Err(StoreError::AlreadyCompleted);
                }
                self.idempotency[i].response = Some(response);
                proof {
                    let post = self@;
                    assert(post.subscribers =~= pre.subscribers);
                    assert(post.tokens =~= pre.tokens);
                    assert forall|j: int|
                        0 <= j < pre.idempotency.len() implies #[trigger] post.idempotency[j] == (
                        if pre.idempotency[j].operator_id == operator_id && pre.idempotency[j].key
                            == key@ {
                            IdempotencyView { response: Some(response@), ..pre.idempotency[j] }
                        } else {
                            pre.idempotency[j]
                        }) by {
                        if j != i {
                            assert(!(pre.idempotency[j].operator_id == operator_id
                                && pre.idempotency[j].key == key@));
                        }
                    }
                }
                Ok(())
            },
            None => Err(StoreError::NoClaim),
        }
    }

    /// The emails of the confirmed subscribers, in insertion order: exactly
    /// the set of addresses a newsletter issue is delivered to.
    pub fn confirmed_emails(&self) -> (r: Vec<String>)
        ensures
            r@.map_values(|s: String| s@) == self@.confirmed_emails(),
    {
        let mut out: Vec<String> = Vec::new();
        let n = self.subscribers.len();
        let mut i: usize = 0;
        proof {
            assert(self@.subscribers.take(0) =~= Seq::<SubscriberView>::empty());
            assert(out@.map_values(|s: String| s@) =~= confirmed_emails_of(
                self@.subscribers.take(0),
            ));
        }
        while i < n
            invariant
                n == self.subscribers@.len(),
                i <= n,
                self@.subscribers.len() == n,
                out@.map_values(|s: String| s@) == confirmed_emails_of(
                    self@.subscribers.take(i as int),
                ),
            decreases n - i,
        {
            let ghost prefix = self@.subscribers.take(i as int);
            let ghost next = self@.subscribers.take(i + 1);
            proof {
                assert(next.drop_last() =~= prefix);
                assert(next.last() == self@.subscribers[i as int]);
            }
            match self.subscribers[i].status {
                SubscriberStatus::Confirmed => {
                    out.push(self.subscribers[i].email.as_string());
                    proof {
                        assert(out@.map_values(|s: String| s@) =~= confirmed_emails_of(next));
                    }
                },
                SubscriberStatus::PendingConfirmation => {
                    proof {
                        assert(confirmed_emails_of(next) =~= confirmed_emails_of(prefix));
                    }
                },
            }
            i = i + 1;
        }
        proof {
            assert(self@.subscribers.take(n as int) =~= self@.subscribers);
        }
        out
    }

    /// The id of the subscriber with this email, if any.
    pub fn subscriber_id_for_email(&self, email: &str) -> (r: Option<u128>)
        requires
            self@.wf(),
        ensures
            match r {
                Some(id) => self@.has_email(email@) && self@.subscribers[self@.email_index(
                    email@,
                )].id == id,
                None => !self@.has_email(email@),
            },
    {
        match self.position_of_email(email) {
            Some(i) => {
                proof {
                    assert(self@.has_email(email@));
                    let w = self@.email_index(email@);
                    assert(self@.subscribers[w].email == email@);
                    assert(w == i);
                }
                Some(self.subscribers[i].id)
            },
            None => None,
        }
    }

    /// How many subscriber rows the store holds.
    pub fn subscriber_count(&self) -> (r: usize)
        ensures
            r == self@.subscribers.len(),
    {
        self.subscribers.len()
    }

    /// The lifecycle status of the subscriber with this email, if any.
    pub fn status_for_email(&self, email: &str) -> (r: Option<SubscriberStatus>)
        requires
            self@.wf(),
        ensures
            match r {
                Some(st) => self@.has_email(email@) && self@.subscribers[self@.email_index(
                    email@,
                )].status == st,
                None => !self@.has_email(email@),
            },
    {
        match self.position_of_email(email) {
            Some(i) => {
                proof {
                    assert(self@.has_email(email@));
                    let w = self@.email_index(email@);
                    assert(self@.subscribers[w].email == email@);
                    assert(w == i);
                }
                Some(self.subscribers[i].status)
            },
            None => None,
        }
    }

    /// The display name of the subscriber with this email, if any.
    pub fn name_for_email(&self, email: &str) -> (r: Option<String>)
        requires
            self@.wf(),
        ensures
            match r {
                Some(name) => self@.has_email(email@) && self@.subscribers[self@.email_index(
                    email@,
                )].name == name@,
                None => !self@.has_email(email@),
            },
    {
        match self.position_of_email(email) {
            Some(i) => {
                proof {
                    assert(self@.has_email(email@));
                    let w = self@.email_index(email@);
                    assert(self@.subscribers[w].email == email@);
                    assert(w == i);
                }
                Some(self.subscribers[i].name.as_string())
            },
            None => None,
        }
    }

    /// Look a token up without mutating anything.
    pub fn redeem_token(&self, token: &str) -> (r: Option<u128>)
        requires
            self@.wf(),
        ensures
            r == self@.redeem(token@),
    {
        match self.position_of_token(token) {
            Some(i) => {
                proof {
                    assert(self@.has_token(token@));
                    let w = self@.token_index(token@);
                    assert(self@.tokens[w].token == token@);
                    assert(w == i);
                }
                Some(self.tokens[i].subscriber_id)
            },
            None => None,
        }
    }
}

} // verus!
