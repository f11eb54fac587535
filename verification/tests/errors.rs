use soc_net::dto::error::ErrorResponse;
use soc_net::errors::auth::AuthError;
use soc_net::errors::common::{DatabaseError, ValidationError};
use soc_net::errors::user::UserError;
use soc_net::errors::Severity;

fn told(response: &ErrorResponse) -> (&str, &str, Option<&str>) {
    (response.message.as_str(), response.code.as_str(), response.details.as_deref())
}

#[test]
fn error_response_starts_without_details() {
    let response = ErrorResponse::new("message", "code");
    assert_eq!(told(&response), ("message", "code", None));
    assert_eq!(response.status_code(), 500);
    let response = response.with_details("first").with_details("second");
    assert_eq!(told(&response), ("message", "code", Some("second")));
    assert_eq!(response.status_code(), 500);
}

#[test]
fn error_response_of_an_error_without_code_names_the_unknown_code() {
    let response = ErrorResponse::from_diagnostic("went wrong".to_string(), None);
    assert_eq!(told(&response), ("went wrong", "social_network::errors::unknown", None));
    let response =
        ErrorResponse::from_diagnostic("went wrong".to_string(), Some("a::code".to_string()));
    assert_eq!(told(&response), ("went wrong", "a::code", None));
    assert_eq!(response.status_code(), 500);
}

#[test]
fn auth_errors_are_built_by_their_helpers() {
    assert!(matches!(
        AuthError::invalid_token("jwt", "why"),
        AuthError::InvalidToken("jwt", details) if details == "why"
    ));
    assert!(matches!(
        AuthError::permission_denied("no"),
        AuthError::PermissionDenied(reason) if reason == "no"
    ));
}

#[test]
fn auth_errors_have_their_status() {
    assert_eq!(AuthError::NoToken("user").status_code(), 401);
    assert_eq!(AuthError::NoRefreshToken("user").status_code(), 401);
    assert_eq!(AuthError::invalid_token("jwt", "x").status_code(), 401);
    assert_eq!(AuthError::NoAuthenticatedUser.status_code(), 401);
    assert_eq!(AuthError::SessionExpired.status_code(), 401);
    assert_eq!(AuthError::InvalidAuthMethod.status_code(), 400);
    assert_eq!(AuthError::OtpRequired.status_code(), 400);
    assert_eq!(AuthError::permission_denied("x").status_code(), 403);
}

#[test]
fn auth_errors_that_end_the_session() {
    assert!(AuthError::SessionExpired.should_logout());
    assert!(AuthError::invalid_token("jwt", "x").should_logout());
    assert!(AuthError::NoAuthenticatedUser.should_logout());
    assert!(!AuthError::NoToken("user").should_logout());
    assert!(!AuthError::NoRefreshToken("user").should_logout());
    assert!(!AuthError::InvalidAuthMethod.should_logout());
    assert!(!AuthError::OtpRequired.should_logout());
    assert!(!AuthError::permission_denied("x").should_logout());
}

#[test]
fn auth_errors_are_logged_by_suspicion() {
    assert_eq!(AuthError::permission_denied("x").severity(), Severity::Error);
    assert_eq!(AuthError::invalid_token("jwt", "x").severity(), Severity::Warning);
    assert_eq!(AuthError::SessionExpired.severity(), Severity::Warning);
    assert_eq!(AuthError::NoToken("user").severity(), Severity::Warning);
    assert_eq!(AuthError::OtpRequired.severity(), Severity::Warning);
}

#[test]
fn auth_errors_in_words() {
    assert_eq!(AuthError::NoToken("user").message(), "Authentication required: user");
    assert_eq!(AuthError::NoRefreshToken("user").message(), "Refresh token required for user");
    assert_eq!(
        AuthError::invalid_token("jwt", "Token expired").message(),
        "Invalid jwt token: Token expired"
    );
    assert_eq!(AuthError::InvalidAuthMethod.message(), "Invalid authentication method");
    assert_eq!(AuthError::NoAuthenticatedUser.message(), "No authenticated user found");
    assert_eq!(AuthError::OtpRequired.message(), "Two-factor authentication required");
    assert_eq!(AuthError::permission_denied("admins only").message(), "Permission denied: admins only");
    assert_eq!(AuthError::SessionExpired.message(), "Session expired");
}

#[test]
fn auth_errors_have_their_code() {
    assert_eq!(AuthError::NoToken("user").code(), "sn::errors::auth::no_token");
    assert_eq!(AuthError::NoRefreshToken("user").code(), "sn::errors::auth::no_refresh_token");
    assert_eq!(AuthError::invalid_token("jwt", "x").code(), "sn::errors::auth::invalid_token");
    assert_eq!(AuthError::InvalidAuthMethod.code(), "sn::errors::auth::invalid_auth_method");
    assert_eq!(AuthError::NoAuthenticatedUser.code(), "sn::errors::auth::no_authenticated_user");
    assert_eq!(AuthError::OtpRequired.code(), "sn::errors::auth::otp_required");
    assert_eq!(AuthError::permission_denied("x").code(), "sn::errors::auth::permission_denied");
    assert_eq!(AuthError::SessionExpired.code(), "sn::errors::auth::session_expired");
}

#[test]
fn auth_error_responses() {
    let response = AuthError::invalid_token("jwt", "Token expired").error_response();
    assert_eq!(
        told(&response),
        ("Invalid jwt token", "sn::errors::auth::invalid_token", Some("Token expired"))
    );
    let response = AuthError::permission_denied("admins only").error_response();
    assert_eq!(
        told(&response),
        ("Permission denied: admins only", "sn::errors::auth::permission_denied", None)
    );
    let response = AuthError::NoRefreshToken("user").error_response();
    assert_eq!(
        told(&response),
        ("Refresh token required for user", "sn::errors::auth::no_refresh_token", None)
    );
    let response = AuthError::SessionExpired.error_response();
    assert_eq!(told(&response), ("Session expired", "sn::errors::auth::session_expired", None));
}

#[test]
fn database_errors() {
    let error = DatabaseError::PostgresConnect("refused".to_string());
    assert_eq!(error.status_code(), 500);
    assert_eq!(error.severity(), Severity::Error);
    assert_eq!(error.code(), "sn::errors::database::connect");
    assert_eq!(error.message(), "Failed to connect to database: refused");
    assert_eq!(
        told(&error.error_response()),
        (
            "Database error occurred",
            "sn::errors::database::connect",
            Some("Failed to connect to database: refused")
        )
    );
    let error = DatabaseError::RedisConnect("timeout".to_string());
    assert_eq!(error.status_code(), 500);
    assert_eq!(error.message(), "Failed to connect to redis: timeout");
    assert_eq!(
        told(&error.error_response()).2,
        Some("Failed to connect to redis: timeout")
    );
}

#[test]
fn validation_errors_are_built_by_their_helpers() {
    assert!(matches!(ValidationError::invalid("bad"), ValidationError::Invalid(words) if words == "bad"));
    assert!(matches!(
        ValidationError::missing_field("email"),
        ValidationError::MissingField(field) if field == "email"
    ));
    assert!(matches!(
        ValidationError::invalid_format("email", "no @"),
        ValidationError::InvalidFormat { field, message } if field == "email" && message == "no @"
    ));
    assert!(matches!(
        ValidationError::out_of_range("age", "too old"),
        ValidationError::OutOfRange { field, message } if field == "age" && message == "too old"
    ));
}

#[test]
fn validation_errors_in_words_and_codes() {
    let invalid = ValidationError::invalid("bad");
    let missing = ValidationError::missing_field("email");
    let format = ValidationError::invalid_format("email", "no @");
    let range = ValidationError::out_of_range("age", "too old");
    for error in [&invalid, &missing, &format, &range] {
        assert_eq!(error.status_code(), 400);
        assert_eq!(error.severity(), Severity::Warning);
    }
    assert_eq!(invalid.message(), "bad");
    assert_eq!(missing.message(), "Missing required field: email");
    assert_eq!(format.message(), "Invalid format for email: no @");
    assert_eq!(range.message(), "Value out of range for age: too old");
    assert_eq!(invalid.code(), "sn::errors::validation::invalid");
    assert_eq!(missing.code(), "sn::errors::validation::missing_field");
    assert_eq!(format.code(), "sn::errors::validation::format");
    assert_eq!(range.code(), "sn::errors::validation::range");
}

#[test]
fn validation_error_responses() {
    assert_eq!(
        told(&ValidationError::invalid("bad").error_response()),
        ("Validation error", "sn::errors::validation::invalid", Some("bad"))
    );
    assert_eq!(
        told(&ValidationError::missing_field("email").error_response()),
        ("Missing required field: email", "sn::errors::validation::missing_field", None)
    );
    assert_eq!(
        told(&ValidationError::invalid_format("email", "no @").error_response()),
        ("Invalid format for field: email", "sn::errors::validation::format", Some("no @"))
    );
    assert_eq!(
        told(&ValidationError::out_of_range("age", "too old").error_response()),
        ("Value out of range for field: age", "sn::errors::validation::range", Some("too old"))
    );
}

fn user_errors() -> Vec<UserError> {
    vec![
        UserError::FailedToCreateUser("duplicate key".to_string()),
        UserError::FailedToFindUser("connection reset".to_string()),
        UserError::UserAlreadyExists,
        UserError::UserNotFound("42".to_string()),
        UserError::PasswordHashError("channel closed".to_string()),
        UserError::InvalidPassword,
        UserError::FailedToBuildTokens("InvalidKeyFormat".to_string()),
    ]
}

#[test]
fn user_errors_have_their_status_and_severity() {
    let status: Vec<u16> = user_errors().iter().map(|error| error.status_code()).collect();
    assert_eq!(status, vec![400, 400, 409, 404, 400, 400, 400]);
    let critical: Vec<bool> = user_errors().iter().map(|error| error.is_critical()).collect();
    assert_eq!(critical, vec![true, false, false, false, false, false, false]);
    let severity: Vec<Severity> = user_errors().iter().map(|error| error.severity()).collect();
    assert_eq!(severity[0], Severity::Error);
    assert!(severity[1..].iter().all(|severity| *severity == Severity::Warning));
}

#[test]
fn user_errors_in_words_and_codes() {
    let words: Vec<String> = user_errors().iter().map(|error| error.message()).collect();
    assert_eq!(
        words,
        vec![
            "Failed to create user",
            "Failed to get user",
            "User already exists",
            "User not found: 42",
            "Failed to hash password",
            "Invalid password",
            "Failed to build tokens: InvalidKeyFormat",
        ]
    );
    let codes: Vec<&str> = user_errors().iter().map(|error| error.code()).collect();
    assert_eq!(
        codes,
        vec![
            "sn::errors::user::failed_to_create_user",
            "sn::errors::user::failed_to_find_user",
            "sn::errors::user::user_already_exists",
            "sn::errors::user::user_not_found",
            "sn::errors::user::password_hash_error",
            "sn::errors::user::invalid_password",
            "sn::errors::user::failed_to_build_tokens",
        ]
    );
}

#[test]
fn user_error_responses_tell_no_detail() {
    let told_of: Vec<(String, String, Option<String>)> = user_errors()
        .iter()
        .map(|error| {
            let response = error.error_response();
            assert_eq!(response.status_code(), 500);
            (response.message, response.code, response.details)
        })
        .collect();
    let expected = vec![
        ("Failed to create user", "sn::errors::user::failed_to_create_user"),
        ("User not found", "sn::errors::user::not_found"),
        ("User already exists", "sn::errors::user::user_already_exists"),
        ("User not found", "sn::errors::user::not_found"),
        ("Failed to hash password", "sn::errors::user::password_hash_error"),
        ("Invalid password", "sn::errors::user::invalid_password"),
        ("Failed to build tokens", "sn::errors::user::failed_to_build_tokens"),
    ];
    assert_eq!(told_of.len(), expected.len());
    for (told, expected) in told_of.iter().zip(expected) {
        assert_eq!(told.0, expected.0);
        assert_eq!(told.1, expected.1);
        assert_eq!(told.2, None);
    }
}
