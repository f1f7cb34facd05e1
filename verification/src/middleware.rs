//! The logging middleware's buffering step, for one direction at a time.
//!
//! The middleware drains a request or response body into memory before
//! the exchange goes on. Draining either succeeds with the body's bytes —
//! which must pass through unchanged — or fails, in which case the whole
//! exchange fails with a Bad-Request-class error naming the direction and
//! the underlying cause.

use vstd::prelude::*;
use vstd::string::StringExecFns;

verus! {

/// The HTTP status code a failed body read is reported under.
pub const BAD_REQUEST: u16 = 400;

/// Which body of the exchange is being buffered.
#[derive(Clone, Copy, Debug, PartialEq, Eq, Structural)]
pub enum Direction {
    Request,
    Response,
}

impl Direction {
    /// The word naming this direction in log lines and error messages.
    pub open spec fn spec_str(&self) -> Seq<char> {
        match self {
            Direction::Request => "request"@,
            Direction::Response => "response"@,
        }
    }

    /// The word naming this direction, as a string slice.
    pub fn as_str(&self) -> (s: &'static str)
        ensures
            s@ == self.spec_str(),
    {
        match self {
            Direction::Request => "request",
            Direction::Response => "response",
        }
    }
}

/// The message a failed body read is reported with: `"failed to read "`,
/// the direction's word, `" body: "`, then the underlying cause.
pub open spec fn read_failure_message(direction: Direction, cause: Seq<char>) -> Seq<char> {
    "failed to read "@ + direction.spec_str() + " body: "@ + cause
}

/// One direction of the middleware's buffering step, applied to the
/// outcome of draining that direction's body stream.
///
/// A drained body passes through byte-identical; a failed drain turns
/// into a Bad-Request-class error carrying the direction and the cause,
/// and nothing is forwarded.
pub fn buffer_body(direction: Direction, drained: Result<Vec<u8>, String>) -> (r: Result<
    Vec<u8>,
    (u16, String),
>)
    ensures
        drained matches Ok(bytes) ==> (r matches Ok(out) && out@ == bytes@),
        drained matches Err(cause) ==> (r matches Err(e) && e.0 == BAD_REQUEST && e.1@
            == read_failure_message(direction, cause@)),
{
    match drained {
        Ok(bytes) => Ok(bytes),
        Err(cause) => {
            let message = String::from_str("failed to read ").concat(direction.as_str()).concat(
                " body: ",
            ).concat(cause.as_str());
            Err((BAD_REQUEST, message))
        },
    }
}

} // verus!
