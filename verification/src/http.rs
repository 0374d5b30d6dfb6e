//! Shaping and classification of authenticated HTTP exchanges.
//!
//! The library never opens a connection itself: each operation produces an
//! [`HttpRequest`] value that a transport executes, and the transport hands
//! back a [`TransportOutcome`] that the classifiers here turn into the
//! operation's typed result.

use vstd::prelude::*;
use vstd::string::StringExecFns;

verus! {

/// HTTP method of a shaped request.
#[derive(Clone, Copy, Debug, PartialEq, Eq, Structural)]
pub enum Method {
    Get,
    Post,
}

/// A fully shaped outgoing request: everything the transport needs, as plain
/// values. `body` lists the fields of the JSON object sent with a POST, in
/// order; it is empty for a GET.
#[derive(Debug)]
pub struct HttpRequest {
    pub method: Method,
    pub url: String,
    pub query: Vec<(String, String)>,
    pub headers: Vec<(String, String)>,
    pub body: Vec<(String, String)>,
}

/// Value of the `Authorization` header carrying a bearer credential.
pub open spec fn spec_bearer_value(jwt: Seq<char>) -> Seq<char> {
    "Bearer "@ + jwt
}

/// Builds the `Authorization` header value for a bearer credential.
pub fn bearer_value(jwt: &str) -> (r: String)
    ensures
        r@ == spec_bearer_value(jwt@),
{
    let mut s = "Bearer ".to_owned();
    s.append(jwt);
    s
}

/// What the transport observed for one request: either no response at all, or
/// a response with this HTTP status.
#[derive(Clone, Copy, Debug)]
pub enum TransportOutcome {
    /// The request could not be sent or no response arrived.
    Failure,
    /// A response arrived with the given status code.
    Response(u16),
}

/// How an authenticated fetch operation fails.
#[derive(Clone, Copy, Debug, PartialEq, Eq, Structural)]
pub enum FetchError {
    /// Network-level failure or a non-success HTTP status.
    Transport,
    /// The response body did not match the expected structured shape.
    Decode,
}

/// A status a response must have before its body is decoded: only the success
/// range counts, anything else is a transport failure.
pub open spec fn spec_http_success(status: u16) -> bool {
    200 <= status && status < 300
}

/// Whether a response status allows decoding to proceed.
pub fn http_success(status: u16) -> (r: bool)
    ensures
        r == spec_http_success(status),
{
    200 <= status && status < 300
}

/// The outcome is accepted exactly when a response arrived with a success
/// status; anything else is a transport failure, never a decode failure.
pub open spec fn spec_outcome_accepted(outcome: TransportOutcome) -> bool {
    outcome matches TransportOutcome::Response(s) && spec_http_success(s)
}

/// Classifies the transport outcome of a fetch: every network failure and
/// every non-success status surfaces as [`FetchError::Transport`].
pub fn accept_response(outcome: &TransportOutcome) -> (r: Result<u16, FetchError>)
    ensures
        match r {
            Ok(s) => *outcome == TransportOutcome::Response(s) && spec_http_success(s),
            Err(e) => e is Transport && !spec_outcome_accepted(*outcome),
        },
{
    match outcome {
        TransportOutcome::Response(s) => {
            if http_success(*s) {
                Ok(*s)
            } else {
                Err(FetchError::Transport)
            }
        },
        TransportOutcome::Failure => Err(FetchError::Transport),
    }
}

} // verus!
