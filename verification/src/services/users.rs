//! The user service: looking users up, signing up and logging in.
//!
//! The store of users is the caller's, and so is the worker that hashes. A
//! flow is taken in steps: each step says what is to be done outside (hash
//! this password, insert this user, look this address up) and the next step
//! takes what came of it. Each state of a flow is a type of its own whose
//! fields are closed: a state is had from the step before it and in no other
//! way.

use crate::dto::user::{AuthTokens, LoginDto, SignUpDto, UserDto, UserWithTokenDto};
use crate::errors::user::{UserError, UserErrorView};
use crate::services::encryption::{EncryptionService, HashingFailed, WORKER_LOST};
use crate::clock::spec_clock_second;
use crate::services::jwt::{JwtService, TokenType, LIFETIME_OUT_OF_RANGE};
use crate::text::{format_i32, spec_format_integer};
use vstd::prelude::*;

verus! {

pub type UserResult<T> = Result<T, UserError>;

/// What looking a user up in the store came to.
#[derive(Debug)]
pub enum UserLookup {
    /// The user is there.
    Found(UserDto),
    /// No such user.
    NotFound,
    /// The store failed, with its words.
    Failed(String),
}

/// What a lookup makes of a user looked up under `key`: the user, the error
/// that there is none under that key, or the error that the lookup failed.
pub open spec fn spec_found(key: Seq<char>, lookup: UserLookup, found: UserResult<UserDto>) -> bool {
    match lookup {
        UserLookup::Found(user) => found matches Ok(given) && given == user,
        UserLookup::NotFound => found matches Err(error) && error@ == UserErrorView::UserNotFound(
            key,
        ),
        UserLookup::Failed(words) => found matches Err(error) && error@
            == UserErrorView::FailedToFindUser(words@),
    }
}

/// The user service's answer to a lookup under `key`.
pub fn found(key: &str, lookup: UserLookup) -> (found: UserResult<UserDto>)
    ensures
        spec_found(key@, lookup, found),
{
    match lookup {
        UserLookup::Found(user) => Ok(user),
        UserLookup::NotFound => Err(UserError::UserNotFound(key.to_owned())),
        UserLookup::Failed(words) => Err(UserError::FailedToFindUser(words)),
    }
}

/// What hashing a new user's password came to, as the user service has it:
/// the hash, or the error that carries the hasher's words.
pub fn hashed_or_error(hashed: Result<String, HashingFailed>) -> (hash: UserResult<String>)
    ensures
        hashed matches Ok(encoded) ==> hash == Ok::<String, UserError>(encoded),
        hashed matches Err(failure) ==> (hash matches Err(error) && error@
            == UserErrorView::PasswordHashError(failure.spec_message())),
{
    match hashed {
        Ok(encoded) => Ok(encoded),
        Err(failure) => Err(UserError::PasswordHashError(failure.message())),
    }
}

/// A user with the credential pair issued to it, or the error that there is
/// no pair, with the signer's words.
pub fn with_tokens(user: UserDto, tokens: Result<AuthTokens, String>) -> (done: UserResult<
    UserWithTokenDto,
>)
    ensures
        tokens matches Ok(pair) ==> (done matches Ok(given) && given.user == user && given.tokens
            == pair),
        tokens matches Err(words) ==> (done matches Err(error) && error@
            == UserErrorView::FailedToBuildTokens(words@)),
{
    match tokens {
        Ok(tokens) => Ok(UserWithTokenDto { user, tokens }),
        Err(words) => Err(UserError::FailedToBuildTokens(words)),
    }
}

/// What the caller of a worker gets for the end of a sign-up or a log-in: the
/// worker's outcome, or, where the worker went away without one, the failure
/// to build tokens that says so.
pub fn settle_issue(reply: Option<UserResult<UserWithTokenDto>>) -> (done: UserResult<
    UserWithTokenDto,
>)
    ensures
        reply matches Some(outcome) ==> done == outcome,
        reply is None ==> (done matches Err(error) && error@ == UserErrorView::FailedToBuildTokens(
            WORKER_LOST@,
        )),
{
    match reply {
        Some(outcome) => outcome,
        None => Err(UserError::FailedToBuildTokens(WORKER_LOST.to_owned())),
    }
}

/// A sign-up whose password is being hashed. Only [`UserService::sign_up`]
/// makes this state.
#[derive(Debug)]
pub struct HashingPassword {
    request: SignUpDto,
}

/// A sign-up whose user is being inserted into the store. Only
/// [`HashingPassword::hashed`] makes this state.
#[derive(Debug)]
pub struct CreatingUser {
    user: UserDto,
}

/// A log-in whose user is being looked up by e-mail address. Only
/// [`UserService::login`] makes this state.
#[derive(Debug)]
pub struct FindingUser {
    request: LoginDto,
}

/// A log-in whose password is being checked against the user's hash. Only
/// [`FindingUser::found`] makes this state.
#[derive(Debug)]
pub struct CheckingPassword {
    user: UserDto,
    password: String,
}

/// Looks users up, signs them up and logs them in.
#[derive(Clone, Debug)]
pub struct UserService {
    jwt_service: JwtService,
    encryption_service: EncryptionService,
}

impl UserService {
    /// The token service that this service issues credentials with.
    pub closed spec fn tokens(&self) -> JwtService {
        self.jwt_service
    }

    pub fn new(jwt_service: JwtService, encryption_service: EncryptionService) -> (service: Self)
        ensures
            service.tokens() == jwt_service,
    {
        UserService { jwt_service, encryption_service }
    }

    /// The hasher that passwords are to be hashed and checked with.
    pub fn encryption_service(&self) -> EncryptionService {
        self.encryption_service
    }

    /// Whether `pair` is a credential pair that this service issues to the
    /// user with the given id: both tokens name the id as it is written in
    /// decimal.
    pub open spec fn spec_issued_to(&self, pair: AuthTokens, id: i32) -> bool {
        &&& exists|now: int|
            spec_clock_second(now) && #[trigger] self.tokens().spec_issued_at(
                pair.access_token@,
                spec_format_integer(id as int),
                TokenType::Access,
                now,
            )
        &&& exists|now: int|
            spec_clock_second(now) && #[trigger] self.tokens().spec_issued_at(
                pair.refresh_token@,
                spec_format_integer(id as int),
                TokenType::Refresh,
                now,
            )
    }

    /// Whether a credential pair can be issued at every second that the clock
    /// can show: the lives of both kinds fit.
    pub open spec fn spec_issues(&self) -> bool {
        self.tokens().spec_life_fits(TokenType::Access) && self.tokens().spec_life_fits(
            TokenType::Refresh,
        )
    }

    /// Whether no credential pair can be issued at any second: one of the two
    /// kinds has no positive life.
    pub open spec fn spec_never_issues(&self) -> bool {
        self.tokens().ttl(TokenType::Access) <= 0 || self.tokens().ttl(TokenType::Refresh) <= 0
    }

    /// Whether `done` is what issuing a credential pair to `user` comes to.
    /// A pair that is issued goes with the user as it was given, and both its
    /// tokens name the user's id. The only failure is that of a life out of
    /// range, which says so. A pair is issued whenever both lives fit, and
    /// never where one of them is not positive.
    pub open spec fn spec_issue(&self, user: UserDto, done: UserResult<UserWithTokenDto>) -> bool {
        &&& done matches Ok(given) ==> (given.user == user && self.spec_issued_to(
            given.tokens,
            user.id,
        ))
        &&& done matches Err(error) ==> error@ == UserErrorView::FailedToBuildTokens(
            LIFETIME_OUT_OF_RANGE@,
        )
        &&& self.spec_issues() ==> done is Ok
        &&& self.spec_never_issues() ==> done is Err
    }

    /// The answer to a lookup by id.
    pub fn get_by_id(&self, id: i32, lookup: UserLookup) -> (user: UserResult<UserDto>)
        ensures
            spec_found(spec_format_integer(id as int), lookup, user),
    {
        let key = format_i32(id);
        found(key.as_str(), lookup)
    }

    /// The answer to a lookup by e-mail address.
    pub fn get_by_email(&self, email: &str, lookup: UserLookup) -> (user: UserResult<UserDto>)
        ensures
            spec_found(email@, lookup, user),
    {
        found(email, lookup)
    }

    /// Issues a credential pair to `user`, whose id is the tokens' subject. It
    /// does so whenever the lives of both kinds of token fit; the only failure
    /// is that of a life out of range.
    pub fn issue(&self, user: UserDto) -> (done: UserResult<UserWithTokenDto>)
        ensures
            self.spec_issue(user, done),
    {
        let subject = format_i32(user.id);
        let tokens = self.jwt_service.build_tokens(subject.as_str());
        proof {
            if tokens is Ok {
                let pair = tokens->Ok_0;
                let first = choose|now: int|
                    spec_clock_second(now) && #[trigger] self.jwt_service.spec_issued_at(
                        pair.access_token@,
                        subject@,
                        TokenType::Access,
                        now,
                    );
                let second = choose|now: int|
                    spec_clock_second(now) && #[trigger] self.jwt_service.spec_issued_at(
                        pair.refresh_token@,
                        subject@,
                        TokenType::Refresh,
                        now,
                    );
                assert(self.tokens().spec_issued_at(
                    pair.access_token@,
                    spec_format_integer(user.id as int),
                    TokenType::Access,
                    first,
                ));
                assert(self.tokens().spec_issued_at(
                    pair.refresh_token@,
                    spec_format_integer(user.id as int),
                    TokenType::Refresh,
                    second,
                ));
                assert(self.spec_issued_to(pair, user.id));
            }
        }
        with_tokens(user, tokens)
    }

    /// Begins a sign-up: the password is to be hashed.
    pub fn sign_up(&self, signup_dto: SignUpDto) -> (step: HashingPassword)
        ensures
            step.spec_request() == signup_dto,
    {
        HashingPassword { request: signup_dto }
    }

    /// Begins a log-in: the user is to be looked up by e-mail address.
    pub fn login(&self, login_dto: LoginDto) -> (step: FindingUser)
        ensures
            step.spec_request() == login_dto,
    {
        FindingUser { request: login_dto }
    }
}

impl HashingPassword {
    /// The request that began the sign-up.
    pub closed spec fn spec_request(&self) -> SignUpDto {
        self.request
    }

    /// The password to hash.
    pub fn password(&self) -> (password: &str)
        ensures
            password@ == self.spec_request().password@,
    {
        self.request.password.as_str()
    }

    /// Moves on with what hashing came to. Without a hash the sign-up fails
    /// for that; with a birth date that writes no day of the calendar no
    /// user can be made, and it fails as a user that cannot be created, with
    /// the words of that fault.
    pub fn hashed(self, hashed: Result<String, HashingFailed>) -> (step: UserResult<CreatingUser>)
        ensures
            hashed matches Err(failure) ==> (step matches Err(error) && error@
                == UserErrorView::PasswordHashError(failure.spec_message())),
            hashed matches Ok(encoded) ==> match self.spec_request().spec_birth_date() {
                Err(fault) => step matches Err(error) && error@
                    == UserErrorView::FailedToCreateUser(fault.message()),
                Ok(birth_date) => step matches Ok(state) && ({
                    let user = state.spec_user();
                    let request = self.spec_request();
                    &&& user.id == 0
                    &&& user.email == request.email
                    &&& user.password == encoded
                    &&& user.first_name == request.first_name
                    &&& user.second_name == request.second_name
                    &&& user.birth_date == birth_date
                    &&& user.gender == request.gender
                    &&& user.city == request.city
                    &&& user.biography == request.biography
                }),
            },
    {
        let encoded = match hashed_or_error(hashed) {
            Ok(encoded) => encoded,
            Err(error) => { return Err(error); },
        };
        match self.request.into_user(encoded) {
            Ok(user) => Ok(CreatingUser { user }),
            Err(fault) => Err(UserError::FailedToCreateUser(fault.message())),
        }
    }
}

impl CreatingUser {
    /// The user to insert.
    pub closed spec fn spec_user(&self) -> UserDto {
        self.user
    }

    /// The user to insert.
    pub fn user(&self) -> (user: &UserDto)
        ensures
            *user == self.spec_user(),
    {
        &self.user
    }

    /// Ends the sign-up with what the insertion came to: the user as the
    /// store has it now, or the store's words. A user that was inserted is
    /// issued its credential pair, as [`UserService::issue`] issues it.
    pub fn created(self, service: &UserService, inserted: Result<UserDto, String>) -> (done:
        UserResult<UserWithTokenDto>)
        ensures
            inserted matches Err(words) ==> (done matches Err(error) && error@
                == UserErrorView::FailedToCreateUser(words@)),
            inserted matches Ok(user) ==> service.spec_issue(user, done),
    {
        match inserted {
            Err(words) => Err(UserError::FailedToCreateUser(words)),
            Ok(user) => service.issue(user),
        }
    }
}

impl FindingUser {
    /// The request that began the log-in.
    pub closed spec fn spec_request(&self) -> LoginDto {
        self.request
    }

    /// The e-mail address to look up.
    pub fn email(&self) -> (email: &str)
        ensures
            email@ == self.spec_request().email@,
    {
        self.request.email.as_str()
    }

    /// Moves on with what the lookup came to: with the user, the password is
    /// to be checked against its hash.
    pub fn found(self, lookup: UserLookup) -> (step: UserResult<CheckingPassword>)
        ensures
            match lookup {
                UserLookup::Found(user) => step matches Ok(state) && state.spec_user() == user
                    && state.spec_password() == self.spec_request().password,
                UserLookup::NotFound => step matches Err(error) && error@
                    == UserErrorView::UserNotFound(self.spec_request().email@),
                UserLookup::Failed(words) => step matches Err(error) && error@
                    == UserErrorView::FailedToFindUser(words@),
            },
    {
        match found(self.request.email.as_str(), lookup) {
            Ok(user) => Ok(CheckingPassword { user, password: self.request.password }),
            Err(error) => Err(error),
        }
    }
}

impl CheckingPassword {
    /// The user that was found.
    pub closed spec fn spec_user(&self) -> UserDto {
        self.user
    }

    /// The password that was presented.
    pub closed spec fn spec_password(&self) -> String {
        self.password
    }

    /// The password to check.
    pub fn password(&self) -> (password: &str)
        ensures
            password@ == self.spec_password()@,
    {
        self.password.as_str()
    }

    /// The hash to check it against.
    pub fn hash(&self) -> (hash: &str)
        ensures
            hash@ == self.spec_user().password@,
    {
        self.user.password.as_str()
    }

    /// Ends the log-in with the hasher's answer: a password that it did not
    /// accept fails the log-in, one that it accepted has the user issued a
    /// credential pair, as [`UserService::issue`] issues it.
    pub fn checked(self, service: &UserService, accepted: bool) -> (done: UserResult<
        UserWithTokenDto,
    >)
        ensures
            !accepted ==> (done matches Err(error) && error is InvalidPassword),
            accepted ==> service.spec_issue(self.spec_user(), done),
    {
        if !accepted {
            return Err(UserError::InvalidPassword);
        }
        service.issue(self.user)
    }
}

} // verus!
