//! The errors that requests and providers report.
use vstd::prelude::*;

verus! {

/// An error answered to an HTTP client: a status code and a message.
#[derive(Debug, PartialEq, Eq)]
pub struct ApplicationError {
    pub code: u16,
    pub message: String,
}

pub open spec fn bad_request_message() -> Seq<char> {
    "Bad Request"@
}

pub open spec fn internal_server_error_message() -> Seq<char> {
    "Internal Server Error"@
}

impl ApplicationError {
    pub fn new(code: u16, message: &str) -> (r: ApplicationError)
        ensures
            r.code == code,
            r.message@ == message@,
    {
        ApplicationError { code, message: String::from_str(message) }
    }

    /// The answer to a request that is malformed or fails validation.
    pub open spec fn is_bad_request(&self) -> bool {
        self.code == 400 && self.message@ == bad_request_message()
    }

    /// The answer to a request whose delivery failed.
    pub open spec fn is_internal_server_error(&self) -> bool {
        self.code == 500 && self.message@ == internal_server_error_message()
    }

    pub fn bad_request() -> (r: ApplicationError)
        ensures
            r.is_bad_request(),
    {
        ApplicationError::new(400, "Bad Request")
    }

    pub fn internal_server_error() -> (r: ApplicationError)
        ensures
            r.is_internal_server_error(),
    {
        ApplicationError::new(500, "Internal Server Error")
    }
}

/// A failed delivery, with a description fit for the logs.
#[derive(Debug, PartialEq, Eq)]
pub struct ProviderError {
    pub description: String,
}

} // verus!
