//! What can go wrong with a user: signing up, logging in, being looked up.

use crate::dto::error::{ErrorResponse, ErrorResponseView};
use crate::errors::{Severity, BAD_REQUEST, CONFLICT, NOT_FOUND};
use vstd::prelude::*;
use vstd::string::StringExecFns;

verus! {

/// A failure of the user service. Variants that stand for a failure of the
/// store or of a worker carry its words, which are logged and never sent.
#[derive(Debug)]
pub enum UserError {
    FailedToCreateUser(String),
    FailedToFindUser(String),
    UserAlreadyExists,
    UserNotFound(String),
    PasswordHashError(String),
    InvalidPassword,
    FailedToBuildTokens(String),
}

/// A [`UserError`] as a mathematical value.
pub enum UserErrorView {
    FailedToCreateUser(Seq<char>),
    FailedToFindUser(Seq<char>),
    UserAlreadyExists,
    UserNotFound(Seq<char>),
    PasswordHashError(Seq<char>),
    InvalidPassword,
    FailedToBuildTokens(Seq<char>),
}

impl View for UserError {
    type V = UserErrorView;

    open spec fn view(&self) -> UserErrorView {
        match self {
            UserError::FailedToCreateUser(words) => UserErrorView::FailedToCreateUser(words@),
            UserError::FailedToFindUser(words) => UserErrorView::FailedToFindUser(words@),
            UserError::UserAlreadyExists => UserErrorView::UserAlreadyExists,
            UserError::UserNotFound(key) => UserErrorView::UserNotFound(key@),
            UserError::PasswordHashError(words) => UserErrorView::PasswordHashError(words@),
            UserError::InvalidPassword => UserErrorView::InvalidPassword,
            UserError::FailedToBuildTokens(words) => UserErrorView::FailedToBuildTokens(words@),
        }
    }
}

pub const CODE_FAILED_TO_CREATE_USER: &'static str = "sn::errors::user::failed_to_create_user";

pub const CODE_FAILED_TO_FIND_USER: &'static str = "sn::errors::user::failed_to_find_user";

pub const CODE_USER_ALREADY_EXISTS: &'static str = "sn::errors::user::user_already_exists";

pub const CODE_USER_NOT_FOUND: &'static str = "sn::errors::user::user_not_found";

pub const CODE_PASSWORD_HASH_ERROR: &'static str = "sn::errors::user::password_hash_error";

pub const CODE_INVALID_PASSWORD: &'static str = "sn::errors::user::invalid_password";

pub const CODE_FAILED_TO_BUILD_TOKENS: &'static str = "sn::errors::user::failed_to_build_tokens";

/// The code that the client is given for a user that was not found, and for
/// a lookup that failed: it cannot tell the two apart.
pub const CODE_NOT_FOUND: &'static str = "sn::errors::user::not_found";

pub const FAILED_TO_CREATE_USER: &'static str = "Failed to create user";

pub const FAILED_TO_GET_USER: &'static str = "Failed to get user";

pub const USER_ALREADY_EXISTS: &'static str = "User already exists";

pub const USER_NOT_FOUND: &'static str = "User not found";

pub const FAILED_TO_HASH_PASSWORD: &'static str = "Failed to hash password";

pub const INVALID_PASSWORD: &'static str = "Invalid password";

pub const FAILED_TO_BUILD_TOKENS: &'static str = "Failed to build tokens";

impl UserErrorView {
    /// The status that the failure is answered with: not found for a user
    /// that is not there, conflict for one that is there already, bad request
    /// for the rest.
    pub open spec fn status_code(self) -> int {
        match self {
            UserErrorView::UserNotFound(_) => NOT_FOUND as int,
            UserErrorView::UserAlreadyExists => CONFLICT as int,
            _ => BAD_REQUEST as int,
        }
    }

    /// Whether the failure is one to be alarmed about.
    pub open spec fn is_critical(self) -> bool {
        self is FailedToCreateUser
    }

    /// How loudly the failure is logged.
    pub open spec fn severity(self) -> Severity {
        if self.is_critical() {
            Severity::Error
        } else {
            Severity::Warning
        }
    }

    /// The code that names the kind of failure.
    pub open spec fn code(self) -> Seq<char> {
        match self {
            UserErrorView::FailedToCreateUser(_) => CODE_FAILED_TO_CREATE_USER@,
            UserErrorView::FailedToFindUser(_) => CODE_FAILED_TO_FIND_USER@,
            UserErrorView::UserAlreadyExists => CODE_USER_ALREADY_EXISTS@,
            UserErrorView::UserNotFound(_) => CODE_USER_NOT_FOUND@,
            UserErrorView::PasswordHashError(_) => CODE_PASSWORD_HASH_ERROR@,
            UserErrorView::InvalidPassword => CODE_INVALID_PASSWORD@,
            UserErrorView::FailedToBuildTokens(_) => CODE_FAILED_TO_BUILD_TOKENS@,
        }
    }

    /// The failure in words, as it is logged.
    pub open spec fn message(self) -> Seq<char> {
        match self {
            UserErrorView::FailedToCreateUser(_) => FAILED_TO_CREATE_USER@,
            UserErrorView::FailedToFindUser(_) => FAILED_TO_GET_USER@,
            UserErrorView::UserAlreadyExists => USER_ALREADY_EXISTS@,
            UserErrorView::UserNotFound(key) => "User not found: "@ + key,
            UserErrorView::PasswordHashError(_) => FAILED_TO_HASH_PASSWORD@,
            UserErrorView::InvalidPassword => INVALID_PASSWORD@,
            UserErrorView::FailedToBuildTokens(words) => "Failed to build tokens: "@ + words,
        }
    }

    /// What the client is told: the kind of failure in fixed words, without
    /// details. Nothing that a variant carries is passed on.
    pub open spec fn response(self) -> ErrorResponseView {
        match self {
            UserErrorView::FailedToFindUser(_) => ErrorResponseView::plain(
                USER_NOT_FOUND@,
                CODE_NOT_FOUND@,
            ),
            UserErrorView::UserNotFound(_) => ErrorResponseView::plain(
                USER_NOT_FOUND@,
                CODE_NOT_FOUND@,
            ),
            UserErrorView::FailedToBuildTokens(_) => ErrorResponseView::plain(
                FAILED_TO_BUILD_TOKENS@,
                CODE_FAILED_TO_BUILD_TOKENS@,
            ),
            UserErrorView::FailedToCreateUser(_) => ErrorResponseView::plain(
                FAILED_TO_CREATE_USER@,
                CODE_FAILED_TO_CREATE_USER@,
            ),
            UserErrorView::PasswordHashError(_) => ErrorResponseView::plain(
                FAILED_TO_HASH_PASSWORD@,
                CODE_PASSWORD_HASH_ERROR@,
            ),
            UserErrorView::InvalidPassword => ErrorResponseView::plain(
                INVALID_PASSWORD@,
                CODE_INVALID_PASSWORD@,
            ),
            UserErrorView::UserAlreadyExists => ErrorResponseView::plain(
                USER_ALREADY_EXISTS@,
                CODE_USER_ALREADY_EXISTS@,
            ),
        }
    }

    /// The kind of failure, without what it carries.
    pub open spec fn same_kind(self, other: UserErrorView) -> bool {
        match (self, other) {
            (UserErrorView::FailedToCreateUser(_), UserErrorView::FailedToCreateUser(_)) => true,
            (UserErrorView::FailedToFindUser(_), UserErrorView::FailedToFindUser(_)) => true,
            (UserErrorView::UserAlreadyExists, UserErrorView::UserAlreadyExists) => true,
            (UserErrorView::UserNotFound(_), UserErrorView::UserNotFound(_)) => true,
            (UserErrorView::PasswordHashError(_), UserErrorView::PasswordHashError(_)) => true,
            (UserErrorView::InvalidPassword, UserErrorView::InvalidPassword) => true,
            (UserErrorView::FailedToBuildTokens(_), UserErrorView::FailedToBuildTokens(_)) => true,
            _ => false,
        }
    }
}

impl UserError {
    pub fn status_code(&self) -> (status: u16)
        ensures
            status == self@.status_code(),
    {
        match self {
            UserError::UserNotFound(_) => NOT_FOUND,
            UserError::UserAlreadyExists => CONFLICT,
            _ => BAD_REQUEST,
        }
    }

    /// Whether the failure is one to be alarmed about.
    pub fn is_critical(&self) -> (critical: bool)
        ensures
            critical == self@.is_critical(),
    {
        match self {
            UserError::FailedToCreateUser(_) => true,
            _ => false,
        }
    }

    /// How loudly the failure is logged.
    pub fn severity(&self) -> (severity: Severity)
        ensures
            severity == self@.severity(),
    {
        if self.is_critical() {
            Severity::Error
        } else {
            Severity::Warning
        }
    }

    /// The code that names the kind of failure.
    pub fn code(&self) -> (code: &'static str)
        ensures
            code@ == self@.code(),
    {
        match self {
            UserError::FailedToCreateUser(_) => CODE_FAILED_TO_CREATE_USER,
            UserError::FailedToFindUser(_) => CODE_FAILED_TO_FIND_USER,
            UserError::UserAlreadyExists => CODE_USER_ALREADY_EXISTS,
            UserError::UserNotFound(_) => CODE_USER_NOT_FOUND,
            UserError::PasswordHashError(_) => CODE_PASSWORD_HASH_ERROR,
            UserError::InvalidPassword => CODE_INVALID_PASSWORD,
            UserError::FailedToBuildTokens(_) => CODE_FAILED_TO_BUILD_TOKENS,
        }
    }

    /// The failure in words, as it is logged.
    pub fn message(&self) -> (words: String)
        ensures
            words@ == self@.message(),
    {
        match self {
            UserError::FailedToCreateUser(_) => FAILED_TO_CREATE_USER.to_owned(),
            UserError::FailedToFindUser(_) => FAILED_TO_GET_USER.to_owned(),
            UserError::UserAlreadyExists => USER_ALREADY_EXISTS.to_owned(),
            UserError::UserNotFound(key) => "User not found: ".to_owned().concat(key.as_str()),
            UserError::PasswordHashError(_) => FAILED_TO_HASH_PASSWORD.to_owned(),
            UserError::InvalidPassword => INVALID_PASSWORD.to_owned(),
            UserError::FailedToBuildTokens(words) => "Failed to build tokens: ".to_owned().concat(
                words.as_str(),
            ),
        }
    }

    /// What the client is told of the failure.
    pub fn error_response(&self) -> (response: ErrorResponse)
        ensures
            response@ == self@.response(),
    {
        match self {
            UserError::FailedToFindUser(_) => ErrorResponse::new(USER_NOT_FOUND, CODE_NOT_FOUND),
            UserError::UserNotFound(_) => ErrorResponse::new(USER_NOT_FOUND, CODE_NOT_FOUND),
            UserError::FailedToBuildTokens(_) => ErrorResponse::new(
                FAILED_TO_BUILD_TOKENS,
                CODE_FAILED_TO_BUILD_TOKENS,
            ),
            UserError::FailedToCreateUser(_) => ErrorResponse::new(
                FAILED_TO_CREATE_USER,
                CODE_FAILED_TO_CREATE_USER,
            ),
            UserError::PasswordHashError(_) => ErrorResponse::new(
                FAILED_TO_HASH_PASSWORD,
                CODE_PASSWORD_HASH_ERROR,
            ),
            UserError::InvalidPassword => ErrorResponse::new(
                INVALID_PASSWORD,
                CODE_INVALID_PASSWORD,
            ),
            UserError::UserAlreadyExists => ErrorResponse::new(
                USER_ALREADY_EXISTS,
                CODE_USER_ALREADY_EXISTS,
            ),
        }
    }
}

/// What a client is told of a failure depends on its kind alone: no words of
/// a store, a worker or the signer reach it, and a lookup that failed reads
/// like a user that is not there.
pub proof fn law_response_tells_no_detail(failure: UserErrorView, other: UserErrorView)
    requires
        failure.same_kind(other),
    ensures
        failure.response() == other.response(),
        failure.response().details is None,
        (UserErrorView::FailedToFindUser(seq![])).response() == (UserErrorView::UserNotFound(
            seq![],
        )).response(),
{
}

} // verus!
