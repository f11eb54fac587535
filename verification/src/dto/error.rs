//! The body of an error response.

use crate::errors::INTERNAL_SERVER_ERROR;
use vstd::prelude::*;

verus! {

/// The code of an error that names none.
pub const UNKNOWN_ERROR_CODE: &'static str = "social_network::errors::unknown";

/// What a client is told of an error: a message, a code that names the kind
/// of error, and details where there are any that may be told.
#[derive(Debug)]
pub struct ErrorResponse {
    pub message: String,
    pub code: String,
    pub details: Option<String>,
    /// The status to send the body with; it is no part of the body.
    pub status_code: u16,
}

/// An [`ErrorResponse`] as a mathematical value.
pub struct ErrorResponseView {
    pub message: Seq<char>,
    pub code: Seq<char>,
    pub details: Option<Seq<char>>,
    pub status_code: int,
}

impl View for ErrorResponse {
    type V = ErrorResponseView;

    open spec fn view(&self) -> ErrorResponseView {
        ErrorResponseView {
            message: self.message@,
            code: self.code@,
            details: match self.details {
                Some(details) => Some(details@),
                None => None,
            },
            status_code: self.status_code as int,
        }
    }
}

impl ErrorResponseView {
    /// A response without details, with the status of an internal error.
    pub open spec fn plain(message: Seq<char>, code: Seq<char>) -> ErrorResponseView {
        ErrorResponseView {
            message,
            code,
            details: None,
            status_code: INTERNAL_SERVER_ERROR as int,
        }
    }

    /// This response with `details` in place of what it had.
    pub open spec fn detailed(self, details: Seq<char>) -> ErrorResponseView {
        ErrorResponseView { details: Some(details), ..self }
    }
}

impl ErrorResponse {
    pub fn new(message: &str, code: &str) -> (response: Self)
        ensures
            response@ == ErrorResponseView::plain(message@, code@),
    {
        ErrorResponse {
            message: message.to_owned(),
            code: code.to_owned(),
            details: None,
            status_code: INTERNAL_SERVER_ERROR,
        }
    }

    pub fn with_details(self, details: &str) -> (response: Self)
        ensures
            response@ == self@.detailed(details@),
    {
        ErrorResponse {
            message: self.message,
            code: self.code,
            details: Some(details.to_owned()),
            status_code: self.status_code,
        }
    }

    /// The response for an error that describes itself: its message, and its
    /// code where it names one.
    pub fn from_diagnostic(message: String, code: Option<String>) -> (response: Self)
        ensures
            response@ == ErrorResponseView::plain(
                message@,
                match code {
                    Some(code) => code@,
                    None => UNKNOWN_ERROR_CODE@,
                },
            ),
    {
        let code = match code {
            Some(code) => code,
            None => UNKNOWN_ERROR_CODE.to_owned(),
        };
        ErrorResponse { message, code, details: None, status_code: INTERNAL_SERVER_ERROR }
    }

    /// The status to send this body with.
    pub fn status_code(&self) -> (status: u16)
        ensures
            status == self@.status_code,
    {
        self.status_code
    }
}

} // verus!
