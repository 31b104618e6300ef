//! The envelope around every answer of the service.

use vstd::prelude::*;

verus! {

/// An answer: either a result, or the description of a failure.
#[derive(Debug)]
pub struct Response<T> {
    pub success: bool,
    pub result: Option<T>,
    pub error: Option<String>,
}

impl<T> Response<T> {
    /// Whether this is the envelope of a success that carries `body`.
    pub open spec fn carries(self, body: T) -> bool {
        self.success && self.result == Some(body) && self.error is None
    }

    /// Whether this is the envelope of a failure described by `text`.
    pub open spec fn reports(self, text: Seq<char>) -> bool {
        !self.success && self.result is None && self.error is Some && self.error->0@ == text
    }

    /// Wraps the body of a successful answer.
    pub fn new(body: T) -> (response: Self)
        ensures
            response.carries(body),
    {
        Response { success: true, result: Some(body), error: None }
    }

    /// Wraps the result of a successful operation.
    pub fn success(result: T) -> (response: Self)
        ensures
            response.carries(result),
    {
        Response { success: true, result: Some(result), error: None }
    }

    /// Wraps the description of a failure.
    pub fn error(error: String) -> (response: Self)
        ensures
            response.reports(error@),
    {
        Response { success: false, result: None, error: Some(error) }
    }

    /// Wraps the outcome of an operation, whichever it is.
    pub fn from_result(outcome: Result<T, String>) -> (response: Self)
        ensures
            match outcome {
                Ok(body) => response.carries(body),
                Err(text) => response.reports(text@),
            },
    {
        match outcome {
            Ok(body) => Response::success(body),
            Err(text) => Response::error(text),
        }
    }
}

} // verus!
