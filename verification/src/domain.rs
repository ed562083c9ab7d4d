//! Validated subscriber data: email addresses and display names.
//!
//! Both types follow the same pattern: a validating constructor (`parse`)
//! returns the wrapped value only when the input satisfies the documented
//! invariant, so an invalid value is unrepresentable once constructed.

pub mod subscriber_email;
pub mod subscriber_name;

pub use subscriber_email::SubscriberEmail;
pub use subscriber_name::SubscriberName;
