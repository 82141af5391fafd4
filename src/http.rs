//! Outbound HTTP requests: which call a request asks for, and what a response
//! status means. The caller sends the call.
use vstd::prelude::*;
use crate::json::{json_object_text, members_view, object_text as encode_object, JsonScalar, Scalar};
use crate::records::Request;
use crate::text::same_text;

verus! {

/// The methods a request may use.
#[derive(Debug, Clone, Copy, PartialEq, Eq, Structural)]
pub enum HttpMethod {
    Get,
    Post,
    Delete,
}

/// Why a request failed.
#[derive(Debug, Clone, Copy, PartialEq, Eq, Structural)]
pub enum RequestError {
    /// The method is none of GET, POST and DELETE.
    UnsupportedMethod,
    /// The response status was not a success (2xx).
    Status(u16),
}

/// One HTTP call: method, target, every header pair, and the JSON body when the
/// request has one (whatever the method).
pub struct HttpCall {
    pub method: HttpMethod,
    pub url: String,
    pub headers: Vec<(String, String)>,
    pub body: Option<String>,
}

/// The method a request names (exactly, in upper case).
pub open spec fn method_of(m: Seq<char>) -> Option<HttpMethod> {
    if m == "GET"@ {
        Some(HttpMethod::Get)
    } else if m == "POST"@ {
        Some(HttpMethod::Post)
    } else if m == "DELETE"@ {
        Some(HttpMethod::Delete)
    } else {
        None
    }
}

/// String pairs as object members.
pub open spec fn string_members(pairs: Seq<(String, String)>) -> Seq<(Seq<char>, Scalar)> {
    pairs.map_values(|p: (String, String)| (p.0@, Scalar::Text(p.1@)))
}

/// The JSON object text of string pairs.
pub open spec fn object_text(pairs: Seq<(String, String)>) -> Seq<char> {
    json_object_text(string_members(pairs))
}

fn method_from(m: &str) -> (r: Option<HttpMethod>)
    ensures
        r == method_of(m@),
{
    if same_text(m, "GET") {
        Some(HttpMethod::Get)
    } else if same_text(m, "POST") {
        Some(HttpMethod::Post)
    } else if same_text(m, "DELETE") {
        Some(HttpMethod::Delete)
    } else {
        None
    }
}

/// The JSON text of an object of string members.
pub fn encode_body(pairs: &Vec<(String, String)>) -> (r: String)
    ensures
        r@ == object_text(pairs@),
{
    let n = pairs.len();
    let mut members: Vec<(String, JsonScalar)> = Vec::new();
    let mut i: usize = 0;
    while i < n
        invariant
            i <= n,
            n == pairs@.len(),
            members@.len() == i,
            members_view(members@) == string_members(pairs@.subrange(0, i as int)),
        decreases n - i,
    {
        let ghost prev = members@;
        let k = pairs[i].0.clone();
        let v = pairs[i].1.clone();
        members.push((k, JsonScalar::Text(v)));
        proof {
            let want = string_members(pairs@.subrange(0, i + 1));
            assert(members@ == prev.push((k, JsonScalar::Text(v))));
            assert(members_view(members@).len() == want.len());
            assert forall|j: int| 0 <= j < want.len() implies #[trigger] members_view(members@)[j] == want[j] by {
                if j < i {
                    assert(members_view(prev)[j] == string_members(pairs@.subrange(0, i as int))[j]);
                }
            }
            assert(members_view(members@) =~= want);
        }
        i += 1;
    }
    assert(pairs@.subrange(0, n as int) =~= pairs@);
    encode_object(&members)
}

/// The call a request asks for: its method (GET, POST or DELETE, else
/// `UnsupportedMethod`), its URL and headers, and its body as JSON when it
/// has one.
pub fn make_request(request: Request) -> (r: Result<HttpCall, RequestError>)
    ensures
        method_of(request.method@) is None ==> r == Err::<HttpCall, RequestError>(RequestError::UnsupportedMethod),
        method_of(request.method@) is Some ==> r is Ok && ({
            let c = r->Ok_0;
            &&& c.method == method_of(request.method@)->0
            &&& c.url@ == request.url@
            &&& c.headers@ == request.headers@
            &&& c.body is Some <==> request.body is Some
            &&& request.body is Some ==> c.body->0@ == object_text(request.body->0@)
        }),
{
    let method = match method_from(request.method.as_str()) {
        Some(m) => m,
        None => return Err(RequestError::UnsupportedMethod),
    };
    let body = match &request.body {
        Some(b) => Some(encode_body(b)),
        None => None,
    };
    Ok(HttpCall { method, url: request.url, headers: request.headers, body })
}

/// What a response status means: success for 2xx, else a failure that
/// carries the status.
pub fn response_outcome(status: u16) -> (r: Result<(), RequestError>)
    ensures
        200 <= status <= 299 ==> r is Ok,
        !(200 <= status <= 299) ==> r == Err::<(), RequestError>(RequestError::Status(status)),
{
    if 200 <= status && status <= 299 {
        Ok(())
    } else {
        Err(RequestError::Status(status))
    }
}

} // verus!
