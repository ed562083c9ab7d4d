use vstd::prelude::*;
use validator::ValidateEmail;

verus! {

/// Whether a string is a valid email address under the HTML5 rules that the
/// validator crate implements. The verdict is a function of the characters
/// alone; the two facts beside it are the checks the crate's source makes
/// before anything else: an empty string and a string without `@` never pass.
pub uninterp spec fn email_valid(s: Seq<char>) -> bool;

/// Relies on validator's `ValidateEmail` for `&str`: the HTML5 email check.
/// Its source rejects the empty string and any string without `@` up front.
#[verifier::external_body]
fn validate_email_str(s: &str) -> (r: bool)
    ensures
        r == email_valid(s@),
        r ==> s@.len() > 0,
        r ==> exists|i: int| 0 <= i < s@.len() && s@[i] == '@',
{
    s.validate_email()
}

/// A subscriber's email address, validated on construction.
///
/// Invariant: the wrapped string passed the HTML5 email check.
pub struct SubscriberEmail(String);

impl View for SubscriberEmail {
    type V = Seq<char>;

    closed spec fn view(&self) -> Seq<char> {
        self.0@
    }
}

impl SubscriberEmail {
    /// Accepts exactly the valid email addresses; the empty string and any
    /// string without `@` are always rejected.
    pub fn parse(s: String) -> (r: Result<SubscriberEmail, String>)
        ensures
            r is Ok <==> email_valid(s@),
            r matches Ok(e) ==> e@ == s@,
            s@.len() == 0 ==> r is Err,
            (forall|i: int| 0 <= i < s@.len() ==> s@[i] != '@') ==> r is Err,
    {
        if validate_email_str(s.as_str()) {
            Ok(SubscriberEmail(s))
        } else {
            Err(String::from_str("not a valid email address"))
        }
    }

    /// The validated address as a string slice.
    pub fn as_str(&self) -> (r: &str)
        ensures
            r@ == self@,
    {
        self.0.as_str()
    }

    /// The validated address as an owned string.
    pub fn as_string(&self) -> (r: String)
        ensures
            r@ == self@,
    {
        self.0.clone()
    }
}

} // verus!
