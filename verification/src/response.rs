use vstd::prelude::*;

verus! {

/// The mathematical value of a [`StoredResponse`].
pub struct ResponseView {
    pub status: u16,
    pub headers: Seq<(Seq<char>, Seq<char>)>,
    pub body: Seq<u8>,
}

/// An HTTP-level outcome: status code, header set, body bytes. This is what
/// the idempotency guard stores against a key and replays verbatim on a
/// retry.
#[derive(Debug, PartialEq)]
pub struct StoredResponse {
    pub status: u16,
    pub headers: Vec<(String, String)>,
    pub body: Vec<u8>,
}

impl View for StoredResponse {
    type V = ResponseView;

    open spec fn view(&self) -> ResponseView {
        ResponseView {
            status: self.status,
            headers: self.headers@.map_values(|p: (String, String)| (p.0@, p.1@)),
            body: self.body@,
        }
    }
}

impl StoredResponse {
    /// A response with the given status and no headers or body.
    pub fn empty(status: u16) -> (r: StoredResponse)
        ensures
            r@.status == status,
            r@.headers == Seq::<(Seq<char>, Seq<char>)>::empty(),
            r@.body == Seq::<u8>::empty(),
    {
        let r = StoredResponse { status, headers: Vec::new(), body: Vec::new() };
        proof {
            assert(r@.headers =~= Seq::<(Seq<char>, Seq<char>)>::empty());
        }
        r
    }

    /// A response with the given status, a single header, and no body.
    pub fn with_header(status: u16, name: &str, value: &str) -> (r: StoredResponse)
        ensures
            r@.status == status,
            r@.headers == seq![(name@, value@)],
            r@.body == Seq::<u8>::empty(),
    {
        let mut headers: Vec<(String, String)> = Vec::new();
        headers.push((String::from_str(name), String::from_str(value)));
        let r = StoredResponse { status, headers, body: Vec::new() };
        proof {
            assert(r@.headers =~= seq![(name@, value@)]);
        }
        r
    }

    /// An exact copy, made field by field so that the copy's value is known.
    pub fn duplicate(&self) -> (r: StoredResponse)
        ensures
            r@ == self@,
    {
        let mut headers: Vec<(String, String)> = Vec::new();
        let mut i: usize = 0;
        let n = self.headers.len();
        while i < n
            invariant
                n == self.headers@.len(),
                i <= n,
                headers@.len() == i,
                forall|j: int| 0 <= j < i ==> #[trigger] headers@[j].0@ == self.headers@[j].0@
                    && headers@[j].1@ == self.headers@[j].1@,
            decreases n - i,
        {
            let name = self.headers[i].0.clone();
            let value = self.headers[i].1.clone();
            headers.push((name, value));
            i = i + 1;
        }
        let mut body: Vec<u8> = Vec::new();
        let mut i: usize = 0;
        let m = self.body.len();
        while i < m
            invariant
                m == self.body@.len(),
                i <= m,
                body@ == self.body@.take(i as int),
            decreases m - i,
        {
            body.push(self.body[i]);
            proof {
                assert(body@ =~= self.body@.take(i + 1));
            }
            i = i + 1;
        }
        let r = StoredResponse { status: self.status, headers, body };
        proof {
            assert(self.body@.take(m as int) =~= self.body@);
            assert(r@.headers =~= self@.headers);
        }
        r
    }
}

} // verus!
