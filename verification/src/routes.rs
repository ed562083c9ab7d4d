//! The request-level flows of the service, written over plain values: the
//! HTTP layer hands in form fields and an authentication result and gets
//! back a typed outcome or a stored response.

pub mod newsletters;
pub mod subscriptions;
