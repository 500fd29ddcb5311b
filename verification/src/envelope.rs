//! The request and response envelopes. A `RequestEnvelope` is a fully
//! specified HTTP request as plain data: the surrounding application only has
//! to send it verbatim. A `ClientResponse` is what comes back: status,
//! headers and a decoded body, with no interpretation of the vendor status.
use vstd::prelude::*;

use crate::json::Json;

verus! {

/// The request methods the client uses.
#[derive(Debug, PartialEq)]
pub enum Method {
    Get,
    Post,
    Delete,
}

/// One outbound request, built fresh per call and never retained.
#[derive(Debug, PartialEq)]
pub struct RequestEnvelope {
    pub method: Method,
    /// Resource path relative to the base URL, without a leading slash.
    pub path: String,
    /// Query parameters, in order.
    pub query: Vec<(String, String)>,
    /// Header names and values, in order.
    pub headers: Vec<(String, String)>,
    /// JSON body, when the endpoint sends one.
    pub body: Option<Json>,
    /// HTTP basic-auth credentials (user, password), when the endpoint uses
    /// them; the transport encodes them.
    pub basic_auth: Option<(String, String)>,
}

/// The pairs of a name/value list, at the view level.
pub open spec fn pairs_view(v: Vec<(String, String)>) -> Seq<(Seq<char>, Seq<char>)> {
    Seq::new(
        v@.len(),
        |i: int|
            if 0 <= i < v@.len() {
                (v@[i].0@, v@[i].1@)
            } else {
                (Seq::empty(), Seq::empty())
            },
    )
}

/// Appends one name/value pair.
pub fn push_pair(v: &mut Vec<(String, String)>, name: &str, value: &str)
    ensures
        pairs_view(*final(v)) == pairs_view(*old(v)).push((name@, value@)),
{
    v.push((name.to_owned(), value.to_owned()));
    proof {
        assert(pairs_view(*v) =~= pairs_view(*old(v)).push((name@, value@)));
    }
}

impl RequestEnvelope {
    /// The value of the first header with the given name, if any.
    pub fn header_value<'a>(&'a self, name: &str) -> (r: Option<&'a String>)
        ensures
            match r {
                Some(value) => exists|i: int|
                    0 <= i < pairs_view(self.headers).len() && #[trigger] pairs_view(
                        self.headers,
                    )[i] == (name@, value@),
                None => forall|i: int|
                    0 <= i < pairs_view(self.headers).len() ==> (#[trigger] pairs_view(
                        self.headers,
                    )[i]).0 != name@,
            },
    {
        let mut i: usize = 0;
        while i < self.headers.len()
            invariant
                i <= self.headers.len(),
                forall|k: int|
                    0 <= k < i ==> (#[trigger] pairs_view(self.headers)[k]).0 != name@,
            decreases self.headers.len() - i,
        {
            let (n, value) = &self.headers[i];
            if crate::strutil::str_eq(n.as_str(), name) {
                proof {
                    assert(pairs_view(self.headers)[i as int] == (name@, value@));
                }
                return Some(value);
            }
            proof {
                assert(pairs_view(self.headers)[i as int].0 == n@);
            }
            i = i + 1;
        }
        None
    }
}

/// One response: the HTTP status, the response headers, and the decoded
/// body. The vendor-level status inside the body is the caller's to read.
#[derive(Debug, PartialEq)]
pub struct ClientResponse<T> {
    pub status: u16,
    pub headers: Vec<(String, String)>,
    pub body: T,
}

} // verus!
