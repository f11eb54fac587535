use soc_net::calendar::BirthDate;
use soc_net::config::{AppConfig, Environment};
use soc_net::dto::user::{
    check_credentials, AuthTokens, LoginDto, SignUpDto, UserDto, UserMeResponse, UserResponse,
    UserWithTokenDto, UserWithTokenResponse,
};
use soc_net::errors::common::ValidationError;
use soc_net::errors::user::UserError;
use soc_net::revocation::StoreReply;
use soc_net::services::encryption::{EncryptionService, HashingFailed};
use soc_net::services::jwt::{JwtService, TokenType};
use soc_net::dto::user::credential_faults;
use soc_net::services::users::{
    found, hashed_or_error, settle_issue, with_tokens, UserLookup, UserService,
};

fn jwt(access: i64) -> JwtService {
    JwtService::new(AppConfig {
        environment: Environment::Test,
        host: String::new(),
        port: 0,
        database_url: String::new(),
        redis_url: String::new(),
        jwt_secret: "secret".to_string(),
        jwt_access_expiration: access,
        jwt_refresh_expiration: 259200,
    })
}

fn service() -> UserService {
    UserService::new(jwt(3600), EncryptionService::new())
}

fn user() -> UserDto {
    UserDto {
        id: 42,
        email: "user@example.com".to_string(),
        password: "hash".to_string(),
        first_name: Some("John".to_string()),
        second_name: Some("Doe".to_string()),
        birth_date: Some(BirthDate { year: 1990, month: 1, day: 1 }),
        gender: Some("Male".to_string()),
        city: Some("New York".to_string()),
        biography: Some("I am a software engineer".to_string()),
    }
}

fn sign_up_request() -> SignUpDto {
    SignUpDto {
        email: "user@example.com".to_string(),
        password: "password123".to_string(),
        first_name: Some("John".to_string()),
        second_name: Some("Doe".to_string()),
        gender: Some("Male".to_string()),
        city: Some("New York".to_string()),
        biography: Some("I am a software engineer".to_string()),
        birth_date: Some("1990-01-01".to_string()),
    }
}

fn fault(checked: Result<(), ValidationError>) -> (String, String) {
    match checked {
        Err(ValidationError::InvalidFormat { field, message }) => (field, message),
        Err(ValidationError::OutOfRange { field, message }) => (field, message),
        Err(other) => panic!("another fault: {}", other.message()),
        Ok(()) => panic!("no fault"),
    }
}

#[test]
fn default_user_has_nothing_filled_in() {
    let user = UserDto::default();
    assert_eq!(user.id, 0);
    assert_eq!(user.email, "");
    assert_eq!(user.password, "");
    assert!(user.first_name.is_none() && user.second_name.is_none() && user.birth_date.is_none());
    assert!(user.gender.is_none() && user.city.is_none() && user.biography.is_none());
}

#[test]
fn public_response_leaves_out_address_and_hash() {
    let response = UserResponse::from(user());
    assert_eq!(response.id, 42);
    assert_eq!(response.first_name.as_deref(), Some("John"));
    assert_eq!(response.second_name.as_deref(), Some("Doe"));
    assert_eq!(response.birth_date.as_deref(), Some("1990-01-01"));
    assert_eq!(response.gender.as_deref(), Some("Male"));
    assert_eq!(response.biography.as_deref(), Some("I am a software engineer"));
    assert_eq!(response.city.as_deref(), Some("New York"));
    let response = UserResponse::from(UserDto::default());
    assert_eq!(response.id, 0);
    assert!(response.first_name.is_none() && response.birth_date.is_none());
}

#[test]
fn own_response_has_the_address_but_no_hash() {
    let response = UserMeResponse::from(user());
    assert_eq!(response.id, 42);
    assert_eq!(response.email, "user@example.com");
    assert_eq!(response.first_name.as_deref(), Some("John"));
    assert_eq!(response.second_name.as_deref(), Some("Doe"));
    assert_eq!(response.birth_date.as_deref(), Some("1990-01-01"));
    assert_eq!(response.gender.as_deref(), Some("Male"));
    assert_eq!(response.city.as_deref(), Some("New York"));
    assert_eq!(response.biography.as_deref(), Some("I am a software engineer"));
}

#[test]
fn response_with_tokens_keeps_the_tokens() {
    let created = UserWithTokenDto {
        user: user(),
        tokens: AuthTokens { access_token: "a".to_string(), refresh_token: "r".to_string() },
    };
    let response = UserWithTokenResponse::from(created);
    assert_eq!(response.user.id, 42);
    assert_eq!(response.user.email, "user@example.com");
    assert_eq!(response.user.birth_date.as_deref(), Some("1990-01-01"));
    assert_eq!(response.tokens.access_token, "a");
    assert_eq!(response.tokens.refresh_token, "r");
}

#[test]
fn birth_date_that_is_no_day_is_left_out_of_responses() {
    let odd = UserDto { birth_date: Some(BirthDate { year: 2023, month: 2, day: 30 }), ..user() };
    assert!(UserResponse::from(odd.clone()).birth_date.is_none());
    assert!(UserMeResponse::from(odd).birth_date.is_none());
}

#[test]
fn credentials_need_an_address_and_six_characters() {
    assert!(check_credentials("user@example.com", "123456").is_none());
    assert!(check_credentials("user@example.com", &"x".repeat(255)).is_none());
    assert!(matches!(
        check_credentials("user@example.com", "12345"),
        Some(ValidationError::OutOfRange { field, .. }) if field == "password"
    ));
    assert!(matches!(
        check_credentials("user@example.com", &"x".repeat(256)),
        Some(ValidationError::OutOfRange { field, .. }) if field == "password"
    ));
    for email in ["", "user", "user@", "@example.com", "user example.com", "a@b@c d"] {
        assert!(matches!(
            check_credentials(email, "123456"),
            Some(ValidationError::InvalidFormat { field, .. }) if field == "email"
        ));
    }
    assert!(matches!(
        check_credentials("nobody", "1"),
        Some(ValidationError::InvalidFormat { field, .. }) if field == "email"
    ));
}

#[test]
fn login_request_is_checked() {
    let request = LoginDto { email: "user@example.com".to_string(), password: "password123".to_string() };
    assert!(request.validate().is_ok());
    let request = LoginDto { email: "user@example.com".to_string(), password: "short".to_string() };
    assert_eq!(
        fault(request.validate()),
        ("password".to_string(), "length is out of range".to_string())
    );
    let request = LoginDto { email: "nobody".to_string(), password: "password123".to_string() };
    assert_eq!(
        fault(request.validate()),
        ("email".to_string(), "must be an e-mail address".to_string())
    );
}

#[test]
fn sign_up_request_is_checked_field_by_field() {
    assert!(sign_up_request().validate().is_ok());
    let bare = SignUpDto {
        first_name: None,
        second_name: None,
        gender: None,
        city: None,
        biography: None,
        birth_date: None,
        ..sign_up_request()
    };
    assert!(bare.validate().is_ok());
    let request = SignUpDto { email: "nobody".to_string(), ..sign_up_request() };
    assert_eq!(fault(request.validate()).0, "email");
    let request = SignUpDto { password: "12345".to_string(), ..sign_up_request() };
    assert_eq!(fault(request.validate()).0, "password");
    let request = SignUpDto { first_name: Some("J".to_string()), ..sign_up_request() };
    assert_eq!(fault(request.validate()).0, "first_name");
    let request = SignUpDto { second_name: Some("x".repeat(256)), ..sign_up_request() };
    assert_eq!(fault(request.validate()).0, "second_name");
    let request = SignUpDto { gender: Some(String::new()), ..sign_up_request() };
    assert_eq!(fault(request.validate()).0, "gender");
    let request = SignUpDto { city: Some("X".to_string()), ..sign_up_request() };
    assert_eq!(fault(request.validate()).0, "city");
    let request = SignUpDto { biography: Some("X".to_string()), ..sign_up_request() };
    assert_eq!(fault(request.validate()).0, "biography");
    let request = SignUpDto { birth_date: Some("1".to_string()), ..sign_up_request() };
    assert_eq!(fault(request.validate()).0, "birth_date");
    let request = SignUpDto {
        first_name: Some("J".to_string()),
        city: Some("X".to_string()),
        ..sign_up_request()
    };
    assert_eq!(fault(request.validate()).0, "first_name");
}

#[test]
fn sign_up_request_becomes_a_user_without_id() {
    let made = sign_up_request().into_user("the hash".to_string()).unwrap();
    assert_eq!(made.id, 0);
    assert_eq!(made.email, "user@example.com");
    assert_eq!(made.password, "the hash");
    assert_eq!(made.first_name.as_deref(), Some("John"));
    assert_eq!(made.second_name.as_deref(), Some("Doe"));
    assert_eq!(made.birth_date, Some(BirthDate { year: 1990, month: 1, day: 1 }));
    assert_eq!(made.gender.as_deref(), Some("Male"));
    assert_eq!(made.city.as_deref(), Some("New York"));
    assert_eq!(made.biography.as_deref(), Some("I am a software engineer"));
    let made = SignUpDto { birth_date: None, ..sign_up_request() }
        .into_user("the hash".to_string())
        .unwrap();
    assert!(made.birth_date.is_none());
    let refused = SignUpDto { birth_date: Some("yesterday".to_string()), ..sign_up_request() }
        .into_user("the hash".to_string());
    assert_eq!(
        fault(refused.map(|_| ())),
        ("birth_date".to_string(), "must be a date written as year-month-day".to_string())
    );
}

#[test]
fn lookups_are_answered_by_what_was_found() {
    let given = found("42", UserLookup::Found(user())).unwrap();
    assert_eq!(given.id, 42);
    assert!(matches!(
        found("42", UserLookup::NotFound),
        Err(UserError::UserNotFound(key)) if key == "42"
    ));
    assert!(matches!(
        found("42", UserLookup::Failed("connection reset".to_string())),
        Err(UserError::FailedToFindUser(words)) if words == "connection reset"
    ));
    let service = service();
    assert_eq!(service.get_by_id(42, UserLookup::Found(user())).unwrap().id, 42);
    assert!(matches!(
        service.get_by_id(-42, UserLookup::NotFound),
        Err(UserError::UserNotFound(key)) if key == "-42"
    ));
    assert!(matches!(
        service.get_by_email("user@example.com", UserLookup::NotFound),
        Err(UserError::UserNotFound(key)) if key == "user@example.com"
    ));
    assert!(matches!(
        service.get_by_email("user@example.com", UserLookup::Failed("down".to_string())),
        Err(UserError::FailedToFindUser(words)) if words == "down"
    ));
    assert_eq!(
        service.get_by_email("user@example.com", UserLookup::Found(user())).unwrap().email,
        "user@example.com"
    );
}

#[test]
fn hashing_and_signing_failures_become_user_errors() {
    assert_eq!(hashed_or_error(Ok("hash".to_string())).unwrap(), "hash");
    assert!(matches!(
        hashed_or_error(Err(HashingFailed::WorkerLost)),
        Err(UserError::PasswordHashError(words)) if words == "channel closed"
    ));
    let tokens = AuthTokens { access_token: "a".to_string(), refresh_token: "r".to_string() };
    let done = with_tokens(user(), Ok(tokens)).unwrap();
    assert_eq!(done.user.id, 42);
    assert_eq!(done.tokens.access_token, "a");
    assert_eq!(done.tokens.refresh_token, "r");
    assert!(matches!(
        with_tokens(user(), Err("no key".to_string())),
        Err(UserError::FailedToBuildTokens(words)) if words == "no key"
    ));
}

#[test]
fn sign_up_hashes_inserts_and_issues() {
    let service = service();
    let step = service.sign_up(sign_up_request());
    assert_eq!(step.password(), "password123");
    let hashed = service.encryption_service().hash_password(step.password().to_string());
    let step = step.hashed(EncryptionService::settle_hash(Some(hashed))).unwrap();
    assert_eq!(step.user().email, "user@example.com");
    assert_eq!(step.user().id, 0);
    assert_ne!(step.user().password, "password123");
    assert!(service.encryption_service().verify_password("password123", &step.user().password));
    let inserted = UserDto { id: 7, ..step.user().clone() };
    let done = step.created(&service, Ok(inserted)).unwrap();
    assert_eq!(done.user.id, 7);
    let data = jwt(3600).verify_at(&done.tokens.access_token, 0, &StoreReply::Missing).unwrap();
    assert_eq!(data.user_id, "7");
    assert_eq!(data.kind, TokenType::Access);
    let data = jwt(3600).verify_at(&done.tokens.refresh_token, 0, &StoreReply::Missing).unwrap();
    assert_eq!(data.user_id, "7");
    assert_eq!(data.kind, TokenType::Refresh);
}

#[test]
fn sign_up_fails_where_a_step_fails() {
    let service = service();
    let step = service.sign_up(sign_up_request());
    assert!(matches!(
        step.hashed(EncryptionService::settle_hash(None)),
        Err(UserError::PasswordHashError(words)) if words == "channel closed"
    ));
    let step = service.sign_up(SignUpDto {
        birth_date: Some("never".to_string()),
        ..sign_up_request()
    });
    assert!(matches!(step.hashed(Ok("hash".to_string())), Err(UserError::FailedToCreateUser(_))));
    let step = service.sign_up(sign_up_request()).hashed(Ok("hash".to_string())).unwrap();
    assert!(matches!(
        step.created(&service, Err("duplicate key".to_string())),
        Err(UserError::FailedToCreateUser(words)) if words == "duplicate key"
    ));
    let no_tokens = UserService::new(jwt(0), EncryptionService::new());
    let step = no_tokens.sign_up(sign_up_request()).hashed(Ok("hash".to_string())).unwrap();
    assert!(matches!(
        step.created(&no_tokens, Ok(user())),
        Err(UserError::FailedToBuildTokens(_))
    ));
}

#[test]
fn login_finds_checks_and_issues() {
    let service = service();
    let hash = service.encryption_service().hash_password("password123".to_string()).unwrap();
    let stored = UserDto { password: hash, ..user() };
    let request = LoginDto { email: "user@example.com".to_string(), password: "password123".to_string() };
    let step = service.login(request);
    assert_eq!(step.email(), "user@example.com");
    let step = step.found(UserLookup::Found(stored.clone())).unwrap();
    assert_eq!(step.password(), "password123");
    assert_eq!(step.hash(), stored.password);
    let accepted = service.encryption_service().verify_password(step.password(), step.hash());
    assert!(accepted);
    let done = step.checked(&service, EncryptionService::settle_verdict(Some(accepted))).unwrap();
    assert_eq!(done.user.id, 42);
    let data = jwt(3600).verify_at(&done.tokens.access_token, 0, &StoreReply::Missing).unwrap();
    assert_eq!(data.user_id, "42");
}

#[test]
fn login_fails_where_a_step_fails() {
    let service = service();
    let request = || LoginDto { email: "user@example.com".to_string(), password: "wrong".to_string() };
    assert!(matches!(
        service.login(request()).found(UserLookup::NotFound),
        Err(UserError::UserNotFound(key)) if key == "user@example.com"
    ));
    assert!(matches!(
        service.login(request()).found(UserLookup::Failed("down".to_string())),
        Err(UserError::FailedToFindUser(words)) if words == "down"
    ));
    let hash = service.encryption_service().hash_password("password123".to_string()).unwrap();
    let stored = UserDto { password: hash, ..user() };
    let step = service.login(request()).found(UserLookup::Found(stored.clone())).unwrap();
    let accepted = service.encryption_service().verify_password(step.password(), step.hash());
    assert!(!accepted);
    assert!(matches!(step.checked(&service, accepted), Err(UserError::InvalidPassword)));
    let step = service.login(request()).found(UserLookup::Found(stored.clone())).unwrap();
    assert!(matches!(
        step.checked(&service, EncryptionService::settle_verdict(None)),
        Err(UserError::InvalidPassword)
    ));
    let no_tokens = UserService::new(jwt(-1), EncryptionService::new());
    let step = no_tokens.login(request()).found(UserLookup::Found(stored)).unwrap();
    assert!(matches!(step.checked(&no_tokens, true), Err(UserError::FailedToBuildTokens(_))));
}

#[test]
fn issue_gives_every_user_a_pair_under_lives_that_fit() {
    let service = service();
    for id in [0, 7, -7, i32::MAX, i32::MIN] {
        let done = service.issue(UserDto { id, ..user() }).unwrap();
        assert_eq!(done.user.id, id);
        let data = jwt(3600).verify_at(&done.tokens.access_token, 0, &StoreReply::Missing).unwrap();
        assert_eq!(data.user_id, id.to_string());
    }
    let no_tokens = UserService::new(jwt(0), EncryptionService::new());
    assert!(matches!(
        no_tokens.issue(user()),
        Err(UserError::FailedToBuildTokens(words)) if words == "Token lifetime out of range"
    ));
}

fn named(faults: Vec<ValidationError>) -> Vec<String> {
    faults.into_iter().map(|found| fault(Err(found)).0).collect()
}

#[test]
fn every_fault_of_a_request_is_named_in_the_order_of_the_fields() {
    assert!(sign_up_request().faults().is_empty());
    let request = SignUpDto {
        email: "nobody".to_string(),
        password: "12345".to_string(),
        first_name: Some("J".to_string()),
        second_name: None,
        gender: Some(String::new()),
        city: Some("New York".to_string()),
        biography: Some("x".repeat(256)),
        birth_date: Some("1".to_string()),
    };
    assert_eq!(
        named(request.faults()),
        vec!["email", "password", "first_name", "gender", "biography", "birth_date"]
    );
    assert_eq!(fault(request.validate()).0, "email");
    let request = SignUpDto { second_name: Some("D".to_string()), ..sign_up_request() };
    assert_eq!(named(request.faults()), vec!["second_name"]);
    let request = SignUpDto { city: Some("X".to_string()), ..sign_up_request() };
    let faults = request.faults();
    assert_eq!(faults.len(), 1);
    assert!(matches!(
        &faults[0],
        ValidationError::OutOfRange { field, message }
            if field == "city" && message == "length is out of range"
    ));
}

#[test]
fn every_fault_of_credentials_is_named() {
    assert!(credential_faults("user@example.com", "password123").is_empty());
    assert_eq!(named(credential_faults("nobody", "password123")), vec!["email"]);
    assert_eq!(named(credential_faults("user@example.com", "short")), vec!["password"]);
    assert_eq!(named(credential_faults("nobody", "short")), vec!["email", "password"]);
    let request = LoginDto { email: "nobody".to_string(), password: "1".to_string() };
    let faults = request.faults();
    assert_eq!(faults.len(), 2);
    assert!(matches!(
        &faults[0],
        ValidationError::InvalidFormat { field, message }
            if field == "email" && message == "must be an e-mail address"
    ));
    let request = LoginDto { email: "user@example.com".to_string(), password: "123456".to_string() };
    assert!(request.faults().is_empty());
    assert!(request.validate().is_ok());
}

#[test]
fn lost_worker_fails_the_issue_and_says_so() {
    assert!(matches!(
        settle_issue(None),
        Err(UserError::FailedToBuildTokens(words)) if words == "channel closed"
    ));
    assert!(matches!(settle_issue(Some(Err(UserError::InvalidPassword))), Err(UserError::InvalidPassword)));
    let tokens = AuthTokens { access_token: "a".to_string(), refresh_token: "r".to_string() };
    let done = settle_issue(Some(Ok(UserWithTokenDto { user: user(), tokens }))).unwrap();
    assert_eq!(done.user.id, 42);
    assert_eq!(done.tokens.access_token, "a");
}
