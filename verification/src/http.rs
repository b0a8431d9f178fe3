//! What the pipeline needs to know of an HTTP exchange.

use vstd::prelude::*;

verus! {

/// What a server answered, or why there was no answer.
#[derive(Debug, PartialEq, Eq)]
pub enum Reply {
    /// An HTTP response with its status code and body.
    Response { status: u16, body: Vec<u8> },
    /// The request failed below HTTP.
    Transport { detail: String },
}

/// Whether an HTTP status code reports success.
pub open spec fn is_success(status: u16) -> bool {
    200 <= status < 300
}

/// Whether a reply is a response with a status of success.
pub open spec fn is_hit(reply: Reply) -> bool {
    reply matches Reply::Response { status, .. } && is_success(status)
}

/// Whether a reply is a response with a status other than success.
pub open spec fn is_miss(reply: Reply) -> bool {
    reply matches Reply::Response { status, .. } && !is_success(status)
}

/// Whether an HTTP status code reports success.
pub fn status_is_success(status: u16) -> (ok: bool)
    ensures
        ok == is_success(status),
{
    200 <= status && status < 300
}

} // verus!
