//! Error answers of the API, in the form of gRPC statuses.
use vstd::prelude::*;

verus! {

/// The kind of a failed request.
#[derive(Debug, Clone, Copy, PartialEq, Eq, Structural)]
pub enum Code {
    InvalidArgument,
    NotFound,
    Unauthenticated,
    Internal,
}

/// A failed request: its kind and the message handed to the client.
#[derive(Debug, Clone, Copy, PartialEq, Eq)]
pub struct Status {
    pub code: Code,
    pub message: &'static str,
}

impl Status {
    /// The status of the given kind with the given message.
    pub open spec fn spec_new(code: Code, message: &'static str) -> Status {
        Status { code, message }
    }

    /// A status of the given kind with the given message.
    pub fn new(code: Code, message: &'static str) -> (s: Status)
        ensures
            s.code == code,
            s.message == message,
    {
        Status { code, message }
    }
}

} // verus!
