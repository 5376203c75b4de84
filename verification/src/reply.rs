//! The outward shape of a handler's answer: a status code and a JSON (or
//! empty) body, which the surrounding server turns into a real response.

use vstd::prelude::*;

verus! {

/// What a handler answers: an HTTP status code and the body to send.
#[derive(Clone, Debug)]
pub struct Reply {
    pub status: u16,
    pub body: String,
}

/// The body of a successful callback.
pub open spec fn spec_success_body() -> Seq<char> {
    "{\"success\": true}"@
}

/// The body of a rejected or failed callback.
pub open spec fn spec_failed_body() -> Seq<char> {
    "{\"success\": false}"@
}

} // verus!
