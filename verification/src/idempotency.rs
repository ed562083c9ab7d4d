//! The client-supplied key under which a publish command is made safe to
//! retry. The guard itself — claiming a key, replaying the saved response —
//! lives on [`crate::store::Store`].

pub mod key;

pub use key::IdempotencyKey;
