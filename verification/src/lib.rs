//! Verified core of a double-opt-in newsletter service.
//!
//! Visitors subscribe with an email address and a display name, confirm the
//! subscription through an unguessable token sent by email, and an
//! authenticated operator publishes issues that are fanned out to every
//! confirmed subscriber. The durable state (subscribers, confirmation tokens,
//! idempotency records) lives in [`store::Store`]; outbound mail goes through
//! the recording gateway in [`gateway`]; the request-level flows are in
//! [`routes`]. The laws the design promises — idempotent confirmation,
//! at-most-one execution per idempotency key, best-effort fan-out — are proved
//! in [`laws`].

pub mod configuration;
pub mod domain;
pub mod gateway;
pub mod idempotency;
pub mod issuer;
pub mod laws;
pub mod response;
pub mod routes;
pub mod store;
pub mod text;
