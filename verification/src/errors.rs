//! The error adapter: every internal failure takes one uniform external
//! shape, an HTTP 500-class response whose body is
//! `"Something went wrong: "` followed by the cause.

use vstd::prelude::*;
use vstd::string::StringExecFns;

verus! {

/// The HTTP status code every adapted failure is reported under.
pub const INTERNAL_SERVER_ERROR: u16 = 500;

/// An internal failure, reduced to the text of its cause. This is the
/// single path by which failures reach the client; handlers never build
/// an error response of their own.
#[derive(Debug)]
pub struct AppError {
    cause: String,
}

impl View for AppError {
    type V = Seq<char>;

    /// The value of an `AppError` is the text of its cause.
    closed spec fn view(&self) -> Seq<char> {
        self.cause@
    }
}

impl AppError {
    /// Wraps a cause with no loss beyond its reduction to text.
    pub fn new(cause: String) -> (e: AppError)
        ensures
            e@ == cause@,
    {
        AppError { cause }
    }

    /// The uniform external shape: status 500 and the message
    /// `"Something went wrong: "` followed by the cause.
    pub fn into_response(self) -> (r: (u16, String))
        ensures
            r.0 == INTERNAL_SERVER_ERROR,
            r.1@ == "Something went wrong: "@ + self@,
    {
        let body = String::from_str("Something went wrong: ").concat(self.cause.as_str());
        (INTERNAL_SERVER_ERROR, body)
    }
}

impl From<String> for AppError {
    /// Any cause already reduced to text converts into the adapter,
    /// with no loss beyond its reduction to text.
    fn from(cause: String) -> (e: AppError)
        ensures
            e@ == cause@,
    {
        AppError { cause }
    }
}

impl vstd::std_specs::convert::FromSpecImpl<String> for AppError {
    open spec fn obeys_from_spec() -> bool {
        true
    }

    closed spec fn from_spec(cause: String) -> AppError {
        AppError { cause }
    }
}

} // verus!
