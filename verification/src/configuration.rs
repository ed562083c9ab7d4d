//! The runtime environment the service can be configured for. Reading the
//! configuration files and environment variables is I/O and lives outside
//! the verified core; this module owns the one decision in that code path:
//! which environment a name denotes.

use vstd::prelude::*;
use crate::text::str_eq;

verus! {

/// What `str::to_lowercase` returns: a function of the characters alone.
pub uninterp spec fn lower_of(s: Seq<char>) -> Seq<char>;

/// Relies on std's `str::to_lowercase`: Unicode lowercasing, a function of
/// the characters alone.
#[verifier::external_body]
fn to_lowercase_str(s: &str) -> (r: String)
    ensures
        r@ == lower_of(s@),
{
    s.to_lowercase()
}

/// The environment the application runs in.
#[derive(Clone, Copy, PartialEq, Eq, Structural, Debug)]
pub enum Environment {
    Local,
    Production,
}

impl Environment {
    /// The environment's name, as the configuration files spell it.
    pub fn as_str(&self) -> (r: &'static str)
        ensures
            r@ == match *self {
                Environment::Local => ("local")@,
                Environment::Production => ("production")@,
            },
    {
        match *self {
            Environment::Local => "local",
            Environment::Production => "production",
        }
    }

    /// Case-insensitive parse of an environment name; every name that does
    /// not lowercase to "local" or "production" is refused.
    pub fn parse(s: &str) -> (r: Result<Environment, String>)
        ensures
            match r {
                Ok(Environment::Local) => lower_of(s@) == ("local")@,
                Ok(Environment::Production) => lower_of(s@) == ("production")@,
                Err(_) => lower_of(s@) != ("local")@ && lower_of(s@) != ("production")@,
            },
    {
        let lowered = to_lowercase_str(s);
        if str_eq(lowered.as_str(), "local") {
            Ok(Environment::Local)
        } else if str_eq(lowered.as_str(), "production") {
            Ok(Environment::Production)
        } else {
            Err(String::from_str("unknown environment; use 'local' or 'production'"))
        }
    }
}

} // verus!
