//! The one way in which building a throttle can fail.

use vstd::prelude::*;

verus! {

/// Why a throttle could not be built.
#[derive(Debug, Clone, Copy, PartialEq, Eq, Structural)]
pub enum ThrottleError {
    /// The quota of requests per second was zero.
    InvalidRequestsPerSecond,
}

impl ThrottleError {
    /// The text that describes the error to a reader.
    pub open spec fn spec_message(self) -> Seq<char> {
        "Requests per second must be a non-zero positive integer"@
    }

    /// The error as a sentence.
    pub fn message(&self) -> (text: String)
        ensures
            text@ == self.spec_message(),
    {
        "Requests per second must be a non-zero positive integer".to_owned()
    }
}

} // verus!
