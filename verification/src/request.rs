//! Requests as plain values, and the classification of raw responses. A
//! request built here is handed to whatever transport the caller runs; the
//! transport hands back a status and a body, and [`classify_response`] decides
//! what they mean.

use vstd::prelude::*;
use crate::error::OpsError;

verus! {

/// The two verbs the service is spoken to with.
#[derive(Clone, Copy, PartialEq, Eq, Structural, Debug)]
pub enum Method {
    Get,
    Post,
}

/// A fully built request: everything a transport needs, as plain values.
/// `needs_auth` tells the transport to resolve a bearer token and attach it
/// with [`HttpRequest::with_bearer`] before sending.
#[derive(Debug, Clone)]
pub struct HttpRequest {
    pub method: Method,
    pub url: String,
    pub headers: Vec<(String, String)>,
    pub body: Option<String>,
    pub needs_auth: bool,
}

/// Header `h` is `name: value`.
pub open spec fn header_is(h: (String, String), name: Seq<char>, value: Seq<char>) -> bool {
    h.0@ == name && h.1@ == value
}

impl HttpRequest {
    /// Returns the request with `Authorization: Bearer <token>` appended after
    /// the existing headers, which are kept unchanged and in order.
    pub fn with_bearer(self, token: &str) -> (r: HttpRequest)
        ensures
            r.method == self.method,
            r.url == self.url,
            r.body == self.body,
            r.needs_auth == self.needs_auth,
            r.headers@.len() == self.headers@.len() + 1,
            forall|i: int| 0 <= i < self.headers@.len() ==> r.headers@[i] == self.headers@[i],
            header_is(
                r.headers@[self.headers@.len() as int],
                "Authorization"@,
                "Bearer "@ + token@,
            ),
    {
        let mut out = self;
        let mut value = String::from_str("Bearer ");
        value.append(token);
        out.headers.push((String::from_str("Authorization"), value));
        out
    }
}

/// Decides what a transport's answer means: a 200 hands the body through
/// untouched, and any other status is an upstream error carrying both the
/// status and the body.
pub fn classify_response(status: u16, body: String) -> (r: Result<String, OpsError>)
    ensures
        status == 200 ==> r == Ok::<String, OpsError>(body),
        status != 200 ==> r == Err::<String, OpsError>(OpsError::Upstream { status, body }),
{
    if status == 200 {
        Ok(body)
    } else {
        Err(OpsError::Upstream { status, body })
    }
}

/// Builds the two headers every retrieval request carries: a plain-text body
/// going out, JSON asked for coming back.
pub(crate) fn standard_headers() -> (r: Vec<(String, String)>)
    ensures
        r@.len() == 2,
        header_is(r@[0], "Content-Type"@, "text/plain"@),
        header_is(r@[1], "Accept"@, "application/json"@),
{
    let mut headers: Vec<(String, String)> = Vec::new();
    headers.push((String::from_str("Content-Type"), String::from_str("text/plain")));
    headers.push((String::from_str("Accept"), String::from_str("application/json")));
    headers
}

} // verus!
