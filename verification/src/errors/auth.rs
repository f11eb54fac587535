//! Why a request was not admitted.

use crate::dto::error::{ErrorResponse, ErrorResponseView};
use crate::errors::{Severity, BAD_REQUEST, FORBIDDEN, UNAUTHORIZED};
use vstd::prelude::*;
use vstd::string::StringExecFns;

verus! {

/// A denial. The first field of the token variants says whose credential was
/// at fault; `InvalidToken` adds why.
#[derive(Debug)]
pub enum AuthError {
    NoToken(&'static str),
    NoRefreshToken(&'static str),
    InvalidToken(&'static str, String),
    InvalidAuthMethod,
    NoAuthenticatedUser,
    OtpRequired,
    PermissionDenied(String),
    SessionExpired,
}

/// An [`AuthError`] as a mathematical value.
pub enum AuthErrorView {
    NoToken(Seq<char>),
    NoRefreshToken(Seq<char>),
    InvalidToken(Seq<char>, Seq<char>),
    InvalidAuthMethod,
    NoAuthenticatedUser,
    OtpRequired,
    PermissionDenied(Seq<char>),
    SessionExpired,
}

impl View for AuthError {
    type V = AuthErrorView;

    open spec fn view(&self) -> AuthErrorView {
        match self {
            AuthError::NoToken(subject) => AuthErrorView::NoToken(subject@),
            AuthError::NoRefreshToken(subject) => AuthErrorView::NoRefreshToken(subject@),
            AuthError::InvalidToken(token_type, details) => AuthErrorView::InvalidToken(
                token_type@,
                details@,
            ),
            AuthError::InvalidAuthMethod => AuthErrorView::InvalidAuthMethod,
            AuthError::NoAuthenticatedUser => AuthErrorView::NoAuthenticatedUser,
            AuthError::OtpRequired => AuthErrorView::OtpRequired,
            AuthError::PermissionDenied(reason) => AuthErrorView::PermissionDenied(reason@),
            AuthError::SessionExpired => AuthErrorView::SessionExpired,
        }
    }
}

pub const CODE_NO_TOKEN: &'static str = "sn::errors::auth::no_token";

pub const CODE_NO_REFRESH_TOKEN: &'static str = "sn::errors::auth::no_refresh_token";

pub const CODE_INVALID_TOKEN: &'static str = "sn::errors::auth::invalid_token";

pub const CODE_INVALID_AUTH_METHOD: &'static str = "sn::errors::auth::invalid_auth_method";

pub const CODE_NO_AUTHENTICATED_USER: &'static str = "sn::errors::auth::no_authenticated_user";

pub const CODE_OTP_REQUIRED: &'static str = "sn::errors::auth::otp_required";

pub const CODE_PERMISSION_DENIED: &'static str = "sn::errors::auth::permission_denied";

pub const CODE_SESSION_EXPIRED: &'static str = "sn::errors::auth::session_expired";

impl AuthErrorView {
    /// The status that the denial is answered with: forbidden for a lack of
    /// permission, bad request for a wrong method or a missing second factor,
    /// unauthorized for the rest.
    pub open spec fn status_code(self) -> int {
        match self {
            AuthErrorView::PermissionDenied(_) => FORBIDDEN as int,
            AuthErrorView::InvalidAuthMethod => BAD_REQUEST as int,
            AuthErrorView::OtpRequired => BAD_REQUEST as int,
            _ => UNAUTHORIZED as int,
        }
    }

    /// Whether the client should drop its session on this denial.
    pub open spec fn should_logout(self) -> bool {
        self is SessionExpired || self is InvalidToken || self is NoAuthenticatedUser
    }

    /// How loudly the denial is logged: a lack of permission as an error,
    /// the rest as a warning.
    pub open spec fn severity(self) -> Severity {
        if self is PermissionDenied {
            Severity::Error
        } else {
            Severity::Warning
        }
    }

    /// The code that names the kind of denial.
    pub open spec fn code(self) -> Seq<char> {
        match self {
            AuthErrorView::NoToken(_) => CODE_NO_TOKEN@,
            AuthErrorView::NoRefreshToken(_) => CODE_NO_REFRESH_TOKEN@,
            AuthErrorView::InvalidToken(_, _) => CODE_INVALID_TOKEN@,
            AuthErrorView::InvalidAuthMethod => CODE_INVALID_AUTH_METHOD@,
            AuthErrorView::NoAuthenticatedUser => CODE_NO_AUTHENTICATED_USER@,
            AuthErrorView::OtpRequired => CODE_OTP_REQUIRED@,
            AuthErrorView::PermissionDenied(_) => CODE_PERMISSION_DENIED@,
            AuthErrorView::SessionExpired => CODE_SESSION_EXPIRED@,
        }
    }

    /// The denial in words.
    pub open spec fn message(self) -> Seq<char> {
        match self {
            AuthErrorView::NoToken(subject) => "Authentication required: "@ + subject,
            AuthErrorView::NoRefreshToken(subject) => "Refresh token required for "@ + subject,
            AuthErrorView::InvalidToken(token_type, details) => "Invalid "@ + token_type
                + " token: "@ + details,
            AuthErrorView::InvalidAuthMethod => "Invalid authentication method"@,
            AuthErrorView::NoAuthenticatedUser => "No authenticated user found"@,
            AuthErrorView::OtpRequired => "Two-factor authentication required"@,
            AuthErrorView::PermissionDenied(reason) => "Permission denied: "@ + reason,
            AuthErrorView::SessionExpired => "Session expired"@,
        }
    }

    /// What the client is told. For an invalid token the reason goes into the
    /// details, not into the message; the other denials are told in their
    /// own words, without details.
    pub open spec fn response(self) -> ErrorResponseView {
        match self {
            AuthErrorView::InvalidToken(token_type, details) => ErrorResponseView::plain(
                "Invalid "@ + token_type + " token"@,
                CODE_INVALID_TOKEN@,
            ).detailed(details),
            _ => ErrorResponseView::plain(self.message(), self.code()),
        }
    }
}

impl AuthError {
    /// Helper to create an InvalidToken error
    pub fn invalid_token(token_type: &'static str, details: &str) -> (error: Self)
        ensures
            error@ == AuthErrorView::InvalidToken(token_type@, details@),
    {
        AuthError::InvalidToken(token_type, details.to_owned())
    }

    /// Helper to create a PermissionDenied error
    pub fn permission_denied(msg: &str) -> (error: Self)
        ensures
            error@ == AuthErrorView::PermissionDenied(msg@),
    {
        AuthError::PermissionDenied(msg.to_owned())
    }

    /// Get the appropriate status code for this error
    pub fn status_code(&self) -> (status: u16)
        ensures
            status == self@.status_code(),
    {
        match self {
            AuthError::NoToken(_) => UNAUTHORIZED,
            AuthError::NoRefreshToken(_) => UNAUTHORIZED,
            AuthError::InvalidToken(_, _) => UNAUTHORIZED,
            AuthError::NoAuthenticatedUser => UNAUTHORIZED,
            AuthError::SessionExpired => UNAUTHORIZED,
            AuthError::InvalidAuthMethod => BAD_REQUEST,
            AuthError::OtpRequired => BAD_REQUEST,
            AuthError::PermissionDenied(_) => FORBIDDEN,
        }
    }

    /// Returns true if the error should trigger a client logout
    pub fn should_logout(&self) -> (logout: bool)
        ensures
            logout == self@.should_logout(),
    {
        match self {
            AuthError::SessionExpired => true,
            AuthError::InvalidToken(_, _) => true,
            AuthError::NoAuthenticatedUser => true,
            _ => false,
        }
    }

    /// How loudly the denial is logged.
    pub fn severity(&self) -> (severity: Severity)
        ensures
            severity == self@.severity(),
    {
        match self {
            AuthError::PermissionDenied(_) => Severity::Error,
            _ => Severity::Warning,
        }
    }

    /// The code that names the kind of denial.
    pub fn code(&self) -> (code: &'static str)
        ensures
            code@ == self@.code(),
    {
        match self {
            AuthError::NoToken(_) => CODE_NO_TOKEN,
            AuthError::NoRefreshToken(_) => CODE_NO_REFRESH_TOKEN,
            AuthError::InvalidToken(_, _) => CODE_INVALID_TOKEN,
            AuthError::InvalidAuthMethod => CODE_INVALID_AUTH_METHOD,
            AuthError::NoAuthenticatedUser => CODE_NO_AUTHENTICATED_USER,
            AuthError::OtpRequired => CODE_OTP_REQUIRED,
            AuthError::PermissionDenied(_) => CODE_PERMISSION_DENIED,
            AuthError::SessionExpired => CODE_SESSION_EXPIRED,
        }
    }

    /// The denial in words.
    pub fn message(&self) -> (words: String)
        ensures
            words@ == self@.message(),
    {
        match self {
            AuthError::NoToken(subject) => "Authentication required: ".to_owned().concat(subject),
            AuthError::NoRefreshToken(subject) => "Refresh token required for ".to_owned().concat(
                subject,
            ),
            AuthError::InvalidToken(token_type, details) => "Invalid ".to_owned().concat(
                token_type,
            ).concat(" token: ").concat(details.as_str()),
            AuthError::InvalidAuthMethod => "Invalid authentication method".to_owned(),
            AuthError::NoAuthenticatedUser => "No authenticated user found".to_owned(),
            AuthError::OtpRequired => "Two-factor authentication required".to_owned(),
            AuthError::PermissionDenied(reason) => "Permission denied: ".to_owned().concat(
                reason.as_str(),
            ),
            AuthError::SessionExpired => "Session expired".to_owned(),
        }
    }

    /// What the client is told of the denial.
    pub fn error_response(&self) -> (response: ErrorResponse)
        ensures
            response@ == self@.response(),
    {
        match self {
            AuthError::InvalidToken(token_type, details) => {
                let message = "Invalid ".to_owned().concat(token_type).concat(" token");
                ErrorResponse::new(message.as_str(), CODE_INVALID_TOKEN).with_details(
                    details.as_str(),
                )
            },
            _ => {
                let message = self.message();
                ErrorResponse::new(message.as_str(), self.code())
            },
        }
    }
}

} // verus!
