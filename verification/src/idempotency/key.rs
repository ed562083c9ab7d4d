use vstd::prelude::*;

verus! {

/// A valid idempotency key: 1 to 49 bytes of UTF-8.
pub open spec fn key_ok(s: Seq<char>) -> bool {
    0 < vstd::utf8::encode_utf8(s).len() < 50
}

/// A client-supplied idempotency key, validated on construction.
///
/// Invariant: the wrapped string is 1 to 49 bytes long.
pub struct IdempotencyKey(String);

impl View for IdempotencyKey {
    type V = Seq<char>;

    closed spec fn view(&self) -> Seq<char> {
        self.0@
    }
}

impl IdempotencyKey {
    /// Accepts exactly the strings of 1 to 49 bytes.
    pub fn parse(s: String) -> (r: Result<IdempotencyKey, String>)
        ensures
            r is Ok <==> key_ok(s@),
            r matches Ok(k) ==> k@ == s@,
    {
        let n = s.as_str().as_bytes().len();
        if n == 0 {
            return Err(String::from_str("the idempotency key cannot be empty"));
        }
        if n >= 50 {
            return Err(String::from_str("the idempotency key must be shorter than 50 bytes"));
        }
        Ok(IdempotencyKey(s))
    }

    /// The key as a string slice.
    pub fn as_str(&self) -> (r: &str)
        ensures
            r@ == self@,
    {
        self.0.as_str()
    }

    /// Gives the key up as a plain string.
    pub fn into_string(self) -> (r: String)
        ensures
            r@ == self@,
    {
        self.0
    }
}

} // verus!
