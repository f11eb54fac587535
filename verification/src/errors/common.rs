//! Errors that are no one service's own: the stores at start-up, and
//! requests that do not validate.

use crate::dto::error::{ErrorResponse, ErrorResponseView};
use crate::errors::{Severity, BAD_REQUEST, INTERNAL_SERVER_ERROR};
use vstd::prelude::*;
use vstd::string::StringExecFns;

verus! {

/// A store that could not be connected to, with the driver's words.
#[derive(Debug)]
pub enum DatabaseError {
    PostgresConnect(String),
    RedisConnect(String),
}

/// A [`DatabaseError`] as a mathematical value.
pub enum DatabaseErrorView {
    PostgresConnect(Seq<char>),
    RedisConnect(Seq<char>),
}

impl View for DatabaseError {
    type V = DatabaseErrorView;

    open spec fn view(&self) -> DatabaseErrorView {
        match self {
            DatabaseError::PostgresConnect(words) => DatabaseErrorView::PostgresConnect(words@),
            DatabaseError::RedisConnect(words) => DatabaseErrorView::RedisConnect(words@),
        }
    }
}

pub const CODE_DATABASE_CONNECT: &'static str = "sn::errors::database::connect";

/// What the client is told of any database error.
pub const DATABASE_ERROR_OCCURRED: &'static str = "Database error occurred";

impl DatabaseErrorView {
    /// The error in words.
    pub open spec fn message(self) -> Seq<char> {
        match self {
            DatabaseErrorView::PostgresConnect(words) => "Failed to connect to database: "@
                + words,
            DatabaseErrorView::RedisConnect(words) => "Failed to connect to redis: "@ + words,
        }
    }

    /// What the client is told: that there was a database error, with the
    /// error's words as details.
    pub open spec fn response(self) -> ErrorResponseView {
        ErrorResponseView::plain(DATABASE_ERROR_OCCURRED@, CODE_DATABASE_CONNECT@).detailed(
            self.message(),
        )
    }
}

impl DatabaseError {
    /// Get the appropriate status code for this error
    pub fn status_code(&self) -> (status: u16)
        ensures
            status == INTERNAL_SERVER_ERROR,
    {
        INTERNAL_SERVER_ERROR
    }

    /// How loudly the error is logged.
    pub fn severity(&self) -> (severity: Severity)
        ensures
            severity == Severity::Error,
    {
        Severity::Error
    }

    /// The code that names the kind of error.
    pub fn code(&self) -> (code: &'static str)
        ensures
            code@ == CODE_DATABASE_CONNECT@,
    {
        CODE_DATABASE_CONNECT
    }

    /// The error in words.
    pub fn message(&self) -> (words: String)
        ensures
            words@ == self@.message(),
    {
        match self {
            DatabaseError::PostgresConnect(words) => "Failed to connect to database: ".to_owned()
                .concat(words.as_str()),
            DatabaseError::RedisConnect(words) => "Failed to connect to redis: ".to_owned().concat(
                words.as_str(),
            ),
        }
    }

    /// What the client is told of the error.
    pub fn error_response(&self) -> (response: ErrorResponse)
        ensures
            response@ == self@.response(),
    {
        let words = self.message();
        ErrorResponse::new(DATABASE_ERROR_OCCURRED, CODE_DATABASE_CONNECT).with_details(
            words.as_str(),
        )
    }
}

/// A request that does not validate.
#[derive(Debug)]
pub enum ValidationError {
    Invalid(String),
    MissingField(String),
    InvalidFormat { field: String, message: String },
    OutOfRange { field: String, message: String },
}

/// A [`ValidationError`] as a mathematical value.
pub enum ValidationErrorView {
    Invalid(Seq<char>),
    MissingField(Seq<char>),
    InvalidFormat { field: Seq<char>, message: Seq<char> },
    OutOfRange { field: Seq<char>, message: Seq<char> },
}

impl View for ValidationError {
    type V = ValidationErrorView;

    open spec fn view(&self) -> ValidationErrorView {
        match self {
            ValidationError::Invalid(words) => ValidationErrorView::Invalid(words@),
            ValidationError::MissingField(field) => ValidationErrorView::MissingField(field@),
            ValidationError::InvalidFormat { field, message } => ValidationErrorView::InvalidFormat {
                field: field@,
                message: message@,
            },
            ValidationError::OutOfRange { field, message } => ValidationErrorView::OutOfRange {
                field: field@,
                message: message@,
            },
        }
    }
}

pub const CODE_VALIDATION_INVALID: &'static str = "sn::errors::validation::invalid";

pub const CODE_VALIDATION_MISSING_FIELD: &'static str = "sn::errors::validation::missing_field";

pub const CODE_VALIDATION_FORMAT: &'static str = "sn::errors::validation::format";

pub const CODE_VALIDATION_RANGE: &'static str = "sn::errors::validation::range";

/// What the client is told of a request that is invalid as a whole.
pub const VALIDATION_ERROR: &'static str = "Validation error";

impl ValidationErrorView {
    /// The code that names the kind of error.
    pub open spec fn code(self) -> Seq<char> {
        match self {
            ValidationErrorView::Invalid(_) => CODE_VALIDATION_INVALID@,
            ValidationErrorView::MissingField(_) => CODE_VALIDATION_MISSING_FIELD@,
            ValidationErrorView::InvalidFormat { .. } => CODE_VALIDATION_FORMAT@,
            ValidationErrorView::OutOfRange { .. } => CODE_VALIDATION_RANGE@,
        }
    }

    /// The error in words.
    pub open spec fn message(self) -> Seq<char> {
        match self {
            ValidationErrorView::Invalid(words) => words,
            ValidationErrorView::MissingField(field) => "Missing required field: "@ + field,
            ValidationErrorView::InvalidFormat { field, message } => "Invalid format for "@ + field
                + ": "@ + message,
            ValidationErrorView::OutOfRange { field, message } => "Value out of range for "@
                + field + ": "@ + message,
        }
    }

    /// What the client is told: which field is at fault in the message, and
    /// what is wrong with it in the details.
    pub open spec fn response(self) -> ErrorResponseView {
        match self {
            ValidationErrorView::Invalid(words) => ErrorResponseView::plain(
                VALIDATION_ERROR@,
                CODE_VALIDATION_INVALID@,
            ).detailed(words),
            ValidationErrorView::MissingField(field) => ErrorResponseView::plain(
                "Missing required field: "@ + field,
                CODE_VALIDATION_MISSING_FIELD@,
            ),
            ValidationErrorView::InvalidFormat { field, message } => ErrorResponseView::plain(
                "Invalid format for field: "@ + field,
                CODE_VALIDATION_FORMAT@,
            ).detailed(message),
            ValidationErrorView::OutOfRange { field, message } => ErrorResponseView::plain(
                "Value out of range for field: "@ + field,
                CODE_VALIDATION_RANGE@,
            ).detailed(message),
        }
    }
}

impl ValidationError {
    pub fn invalid(msg: &str) -> (error: Self)
        ensures
            error@ == ValidationErrorView::Invalid(msg@),
    {
        ValidationError::Invalid(msg.to_owned())
    }

    pub fn missing_field(field: &str) -> (error: Self)
        ensures
            error@ == ValidationErrorView::MissingField(field@),
    {
        ValidationError::MissingField(field.to_owned())
    }

    pub fn invalid_format(field: &str, message: &str) -> (error: Self)
        ensures
            error@ == (ValidationErrorView::InvalidFormat { field: field@, message: message@ }),
    {
        ValidationError::InvalidFormat { field: field.to_owned(), message: message.to_owned() }
    }

    /// A value that is out of range for its field.
    pub fn out_of_range(field: &str, message: &str) -> (error: Self)
        ensures
            error@ == (ValidationErrorView::OutOfRange { field: field@, message: message@ }),
    {
        ValidationError::OutOfRange { field: field.to_owned(), message: message.to_owned() }
    }

    pub fn status_code(&self) -> (status: u16)
        ensures
            status == BAD_REQUEST,
    {
        BAD_REQUEST
    }

    /// How loudly the error is logged.
    pub fn severity(&self) -> (severity: Severity)
        ensures
            severity == Severity::Warning,
    {
        Severity::Warning
    }

    /// The code that names the kind of error.
    pub fn code(&self) -> (code: &'static str)
        ensures
            code@ == self@.code(),
    {
        match self {
            ValidationError::Invalid(_) => CODE_VALIDATION_INVALID,
            ValidationError::MissingField(_) => CODE_VALIDATION_MISSING_FIELD,
            ValidationError::InvalidFormat { .. } => CODE_VALIDATION_FORMAT,
            ValidationError::OutOfRange { .. } => CODE_VALIDATION_RANGE,
        }
    }

    /// The error in words.
    pub fn message(&self) -> (words: String)
        ensures
            words@ == self@.message(),
    {
        match self {
            ValidationError::Invalid(words) => words.clone(),
            ValidationError::MissingField(field) => "Missing required field: ".to_owned().concat(
                field.as_str(),
            ),
            ValidationError::InvalidFormat { field, message } => "Invalid format for ".to_owned()
                .concat(field.as_str()).concat(": ").concat(message.as_str()),
            ValidationError::OutOfRange { field, message } => "Value out of range for ".to_owned()
                .concat(field.as_str()).concat(": ").concat(message.as_str()),
        }
    }

    /// What the client is told of the error.
    pub fn error_response(&self) -> (response: ErrorResponse)
        ensures
            response@ == self@.response(),
    {
        match self {
            ValidationError::Invalid(words) => ErrorResponse::new(
                VALIDATION_ERROR,
                CODE_VALIDATION_INVALID,
            ).with_details(words.as_str()),
            ValidationError::MissingField(field) => {
                let message = "Missing required field: ".to_owned().concat(field.as_str());
                ErrorResponse::new(message.as_str(), CODE_VALIDATION_MISSING_FIELD)
            },
            ValidationError::InvalidFormat { field, message } => {
                let told = "Invalid format for field: ".to_owned().concat(field.as_str());
                ErrorResponse::new(told.as_str(), CODE_VALIDATION_FORMAT).with_details(
                    message.as_str(),
                )
            },
            ValidationError::OutOfRange { field, message } => {
                let told = "Value out of range for field: ".to_owned().concat(field.as_str());
                ErrorResponse::new(told.as_str(), CODE_VALIDATION_RANGE).with_details(
                    message.as_str(),
                )
            },
        }
    }
}

} // verus!
