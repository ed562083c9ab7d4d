//! The confirmation token issuer: mints opaque unguessable tokens and links
//! them to a subscriber. Redemption is the read-only lookup
//! [`crate::store::Store::redeem_token`].

use vstd::prelude::*;
use crate::store::{token_added_transition, Store, StoreError};

verus! {

pub open spec fn is_lower_hex_char(c: char) -> bool {
    ('0' <= c && c <= '9') || ('a' <= c && c <= 'f')
}

/// The shape every minted confirmation token has: 32 lowercase hex digits —
/// well above the 25 random alphanumeric characters the design asks for.
pub open spec fn token_wf(t: Seq<char>) -> bool {
    &&& t.len() == 32
    &&& forall|i: int| 0 <= i < t.len() ==> is_lower_hex_char(#[trigger] t[i])
}

/// Relies on uuid's `Uuid::new_v4` and its `simple` formatter: whatever
/// random value comes back, its simple form is 32 lowercase hex digits.
#[verifier::external_body]
pub(crate) fn mint_token() -> (r: String)
    ensures
        token_wf(r@),
{
    format!("{}", uuid::Uuid::new_v4().simple())
}

/// Mint a token for an existing subscriber and store the mapping. A clash
/// with an already stored token is astronomically unlikely and is surfaced
/// as an error rather than retried.
pub fn issue(store: &mut Store, subscriber_id: u128) -> (r: Result<String, StoreError>)
    requires
        old(store)@.wf(),
    ensures
        final(store)@.wf(),
        match r {
            Ok(token) => token_wf(token@) && token_added_transition(
                old(store)@,
                final(store)@,
                subscriber_id,
                token@,
            ),
            // A clash is owed to a well-formed token already in the store: on
            // a store holding none (an empty one, say), success is owed for
            // every existing subscriber.
            Err(StoreError::TokenTaken) => final(store)@ == old(store)@ && exists|t: Seq<char>|
                token_wf(t) && #[trigger] old(store)@.has_token(t),
            Err(StoreError::UnknownSubscriber) => !old(store)@.has_subscriber_id(subscriber_id)
                && final(store)@ == old(store)@,
            Err(_) => false,
        },
{
    let token = mint_token();
    let ghost tv = token@;
    let stored = token.clone();
    match store.store_token(stored, subscriber_id) {
        Ok(()) => Ok(token),
        Err(e) => {
            proof {
                if e == StoreError::TokenTaken {
                    assert(token_wf(tv) && old(store)@.has_token(tv));
                }
            }
            Err(e)
        },
    }
}

} // verus!
