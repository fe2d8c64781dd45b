//! A received HTTP response, reduced to the two things the workflow
//! reads: the status code and the raw body bytes.

use vstd::prelude::*;

verus! {

/// A response that the server actually sent back. A transport-level
/// failure (connection refused, DNS failure, timeout) is represented
/// by the absence of a response (`None` at the session methods), not
/// by a value of this type.
pub struct HttpResponse {
    /// The HTTP status code.
    pub status: u16,
    /// The raw response body.
    pub body: Vec<u8>,
}

/// Whether a status code counts as success for the workflow: client
/// and server error codes (400 through 599) are failures, everything
/// else proceeds.
pub open spec fn status_ok(status: u16) -> bool {
    !(400 <= status && status <= 599)
}

impl HttpResponse {
    /// Whether this response's status counts as success.
    pub fn is_success(&self) -> (r: bool)
        ensures
            r == status_ok(self.status),
    {
        !(400 <= self.status && self.status <= 599)
    }
}

} // verus!
