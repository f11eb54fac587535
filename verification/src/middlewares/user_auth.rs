//! The admission gate in front of authenticated routes.
//!
//! A request is admitted in steps, each of which either moves on or denies:
//! no credentials, tokens extracted, verified, identity loaded, admitted. The
//! steps that need the outside world (verifying the access token against the
//! revocation list, loading the user) are the caller's; it hands what came
//! back to the next step. Each state is a type of its own whose fields are
//! closed: a state is had from the step before it and in no other way, so
//! that no step can be taken out of turn.
//!
//! Both tokens must be presented on every gated request. The refresh token
//! is not used to refresh anything here: its presence alone is asked for.

use crate::dto::user::AuthTokens;
use crate::errors::auth::{AuthError, AuthErrorView};
use crate::revocation::{spec_is_revoked, StoreReplyView};
use crate::services::jwt::{spec_verify, JwtData, JwtDataView, JwtService, TokenError, TokenType};
use crate::signing::jwt_claims;
use crate::text::{
    parse_i32, spec_format_integer, spec_parse_i32, spec_strip_prefix, strip_prefix,
};
use vstd::prelude::*;

verus! {

/// The header that carries the access token.
pub const AUTHORIZATION_HEADER: &'static str = "authorization";

/// The header that carries the refresh token.
pub const REFRESH_AUTH_HEADER: &'static str = "authorization-refresh-token";

/// What a token is introduced by in either header.
pub const BEARER_PREFIX: &'static str = "Bearer ";

/// Whose credentials the admission gate asks for.
pub const SUBJECT_USER: &'static str = "user";

/// What the admission gate calls the access token when it denies it.
pub const TOKEN_JWT: &'static str = "jwt";

/// Why a token of the wrong kind is denied.
pub const INVALID_TOKEN_TYPE: &'static str = "invalid token type";

/// Why a token whose subject is no user id is denied.
pub const PARSE_TOKEN_ERROR: &'static str = "parse token error";

/// Why a token whose user cannot be loaded is denied. It does not say
/// whether the account exists.
pub const USER_NOT_FOUND: &'static str = "user not found";

/// The token in a header: what follows the prefix, where the header is there
/// and starts with it.
pub open spec fn spec_bearer_token(header: Option<Seq<char>>) -> Option<Seq<char>> {
    match header {
        None => None,
        Some(value) => spec_strip_prefix(value, BEARER_PREFIX@),
    }
}

/// The token in a header, if the header is there and holds one.
pub fn bearer_token(header: Option<&str>) -> (token: Option<String>)
    ensures
        token is Some <==> spec_bearer_token(spec_header(header)) is Some,
        token matches Some(text) ==> spec_bearer_token(spec_header(header)) == Some(text@),
{
    match header {
        None => None,
        Some(value) => strip_prefix(value, BEARER_PREFIX),
    }
}

/// A header's value as a mathematical value.
pub open spec fn spec_header(header: Option<&str>) -> Option<Seq<char>> {
    match header {
        None => None,
        Some(value) => Some(value@),
    }
}

/// What extraction makes of the two headers: the two tokens, or the denial
/// for the first one that is missing, the access token's first.
pub open spec fn spec_extract(
    authorization: Option<Seq<char>>,
    refresh: Option<Seq<char>>,
) -> Result<(Seq<char>, Seq<char>), AuthErrorView> {
    match spec_bearer_token(authorization) {
        None => Err(AuthErrorView::NoToken(SUBJECT_USER@)),
        Some(access_token) => match spec_bearer_token(refresh) {
            None => Err(AuthErrorView::NoRefreshToken(SUBJECT_USER@)),
            Some(refresh_token) => Ok((access_token, refresh_token)),
        },
    }
}

/// What the admission gate makes of the token service's verdict on the access token,
/// the verdict's error given by its words: the user id that the token names,
/// or the denial. Every failure denies the token as invalid: a refusal by
/// the service with the service's words, a token of another kind than access,
/// and a subject that is no user id.
pub open spec fn spec_verified(verdict: Result<JwtDataView, Seq<char>>) -> Result<
    i32,
    AuthErrorView,
> {
    match verdict {
        Err(words) => Err(AuthErrorView::InvalidToken(TOKEN_JWT@, words)),
        Ok(data) => if data.kind != TokenType::Access {
            Err(AuthErrorView::InvalidToken(TOKEN_JWT@, INVALID_TOKEN_TYPE@))
        } else {
            match spec_parse_i32(data.user_id) {
                None => Err(AuthErrorView::InvalidToken(TOKEN_JWT@, PARSE_TOKEN_ERROR@)),
                Some(user_id) => Ok(user_id),
            }
        },
    }
}

/// A verdict of the token service with its error reduced to its words.
pub open spec fn spec_verdict(verdict: Result<JwtData, TokenError>) -> Result<
    JwtDataView,
    Seq<char>,
> {
    match verdict {
        Ok(data) => Ok(data@),
        Err(error) => Err(error.spec_message()),
    }
}

/// The denial for a user that could not be loaded.
pub open spec fn spec_user_not_found() -> AuthErrorView {
    AuthErrorView::InvalidToken(SUBJECT_USER@, USER_NOT_FOUND@)
}

/// The admission gate before it has seen a request: no credentials.
pub struct AuthGate;

/// Both tokens were found in the request's headers. Next, the access token
/// is to be verified. Only [`AuthGate::extract`] makes this state.
#[derive(Debug)]
pub struct TokensExtracted {
    tokens: AuthTokens,
}

/// The access token is verified and names a user. Next, that user is to be
/// loaded. Only [`TokensExtracted::verified`] makes this state.
#[derive(Debug)]
pub struct Verified {
    tokens: AuthTokens,
    user_id: i32,
}

/// The user is loaded. Next, user and tokens are to be attached to the
/// request. Only [`Verified::loaded`] makes this state.
#[derive(Debug)]
pub struct IdentityLoaded<U> {
    user: U,
    tokens: AuthTokens,
}

/// The request is admitted: what is attached to it for the handlers
/// downstream, which only read it.
#[derive(Debug)]
pub struct Admitted<U> {
    pub user: U,
    pub tokens: AuthTokens,
}

impl AuthGate {
    /// Extracts both tokens from the values of the two headers, each given
    /// where the request has the header and its value is text.
    pub fn extract(authorization: Option<&str>, refresh: Option<&str>) -> (step: Result<
        TokensExtracted,
        AuthError,
    >)
        ensures
            match spec_extract(spec_header(authorization), spec_header(refresh)) {
                Ok((access_token, refresh_token)) => step matches Ok(state)
                    && state.spec_tokens().access_token@ == access_token
                    && state.spec_tokens().refresh_token@ == refresh_token,
                Err(denial) => step matches Err(error) && error@ == denial,
            },
    {
        let access_token = match bearer_token(authorization) {
            Some(access_token) => access_token,
            None => { return Err(AuthError::NoToken(SUBJECT_USER)); },
        };
        let refresh_token = match bearer_token(refresh) {
            Some(refresh_token) => refresh_token,
            None => { return Err(AuthError::NoRefreshToken(SUBJECT_USER)); },
        };
        Ok(TokensExtracted { tokens: AuthTokens { access_token, refresh_token } })
    }
}

impl TokensExtracted {
    /// The two tokens that were extracted.
    pub closed spec fn spec_tokens(&self) -> AuthTokens {
        self.tokens
    }

    /// The two tokens that were extracted.
    pub fn tokens(&self) -> (tokens: &AuthTokens)
        ensures
            *tokens == self.spec_tokens(),
    {
        &self.tokens
    }

    /// The token that the token service is to verify.
    pub fn access_token(&self) -> (token: &str)
        ensures
            token@ == self.spec_tokens().access_token@,
    {
        self.tokens.access_token.as_str()
    }

    /// The token whose presence was asked for.
    pub fn refresh_token(&self) -> (token: &str)
        ensures
            token@ == self.spec_tokens().refresh_token@,
    {
        self.tokens.refresh_token.as_str()
    }

    /// Moves on with the token service's verdict on the access token.
    pub fn verified(self, verdict: Result<JwtData, TokenError>) -> (step: Result<
        Verified,
        AuthError,
    >)
        ensures
            match spec_verified(spec_verdict(verdict)) {
                Ok(user_id) => step matches Ok(state) && state.spec_user_id() == user_id
                    && state.spec_tokens() == self.spec_tokens(),
                Err(denial) => step matches Err(error) && error@ == denial,
            },
    {
        let data = match verdict {
            Ok(data) => data,
            Err(error) => {
                let words = error.message();
                return Err(AuthError::invalid_token(TOKEN_JWT, words.as_str()));
            },
        };
        match data.kind {
            TokenType::Access => {},
            TokenType::Refresh => {
                return Err(AuthError::invalid_token(TOKEN_JWT, INVALID_TOKEN_TYPE));
            },
        }
        match parse_i32(data.user_id.as_str()) {
            None => Err(AuthError::invalid_token(TOKEN_JWT, PARSE_TOKEN_ERROR)),
            Some(user_id) => Ok(Verified { tokens: self.tokens, user_id }),
        }
    }
}

impl Verified {
    /// The two tokens of the request.
    pub closed spec fn spec_tokens(&self) -> AuthTokens {
        self.tokens
    }

    /// The id of the user that the access token names.
    pub closed spec fn spec_user_id(&self) -> i32 {
        self.user_id
    }

    /// The two tokens of the request.
    pub fn tokens(&self) -> (tokens: &AuthTokens)
        ensures
            *tokens == self.spec_tokens(),
    {
        &self.tokens
    }

    /// The id of the user to load.
    pub fn user_id(&self) -> (id: i32)
        ensures
            id == self.spec_user_id(),
    {
        self.user_id
    }

    /// Moves on with what loading the user came to: the user, or nothing
    /// where there is none or the store failed. The denial is the same for
    /// both, and does not say which.
    pub fn loaded<U>(self, user: Option<U>) -> (step: Result<IdentityLoaded<U>, AuthError>)
        ensures
            match user {
                Some(found) => step matches Ok(state) && state.spec_user() == found
                    && state.spec_tokens() == self.spec_tokens(),
                None => step matches Err(error) && error@ == spec_user_not_found(),
            },
    {
        match user {
            Some(user) => Ok(IdentityLoaded { user, tokens: self.tokens }),
            None => Err(AuthError::invalid_token(SUBJECT_USER, USER_NOT_FOUND)),
        }
    }
}

impl<U> IdentityLoaded<U> {
    /// The user that was loaded.
    pub closed spec fn spec_user(&self) -> U {
        self.user
    }

    /// The two tokens of the request.
    pub closed spec fn spec_tokens(&self) -> AuthTokens {
        self.tokens
    }

    /// The user that was loaded.
    pub fn user(&self) -> (user: &U)
        ensures
            *user == self.spec_user(),
    {
        &self.user
    }

    /// The two tokens of the request.
    pub fn tokens(&self) -> (tokens: &AuthTokens)
        ensures
            *tokens == self.spec_tokens(),
    {
        &self.tokens
    }

    /// Admits the request: hands out what is to be attached to it.
    pub fn attach(self) -> (identity: Admitted<U>)
        ensures
            identity.user == self.spec_user(),
            identity.tokens == self.spec_tokens(),
    {
        Admitted { user: self.user, tokens: self.tokens }
    }
}

/// A request that presents an access token but no refresh token is denied
/// for the missing refresh token, whatever the access token is.
pub proof fn law_missing_refresh_token_is_denied(
    authorization: Option<Seq<char>>,
    refresh: Option<Seq<char>>,
)
    requires
        spec_bearer_token(authorization) is Some,
        spec_bearer_token(refresh) is None,
    ensures
        spec_extract(authorization, refresh) == Err::<(Seq<char>, Seq<char>), AuthErrorView>(
            AuthErrorView::NoRefreshToken(SUBJECT_USER@),
        ),
{
}

/// A request without an access token is denied for that, whatever else it
/// presents.
pub proof fn law_missing_access_token_is_denied(
    authorization: Option<Seq<char>>,
    refresh: Option<Seq<char>>,
)
    requires
        spec_bearer_token(authorization) is None,
    ensures
        spec_extract(authorization, refresh) == Err::<(Seq<char>, Seq<char>), AuthErrorView>(
            AuthErrorView::NoToken(SUBJECT_USER@),
        ),
{
}

/// A verified token of another kind than access is denied as an invalid
/// token, for its kind.
pub proof fn law_wrong_kind_is_denied(data: JwtDataView)
    requires
        data.kind != TokenType::Access,
    ensures
        spec_verified(Ok(data)) == Err::<i32, AuthErrorView>(
            AuthErrorView::InvalidToken(TOKEN_JWT@, INVALID_TOKEN_TYPE@),
        ),
{
}

/// A refresh token that the service issued, presented as the access token,
/// never passes the admission gate: whenever it is verified and whatever the
/// revocation list replies, the denial is that of an invalid token; and
/// while the token is neither expired nor revoked, it is denied for its
/// kind.
pub proof fn law_refresh_token_is_no_access_token(
    service: JwtService,
    token: Seq<char>,
    user_id: Seq<char>,
    issued: int,
    now: int,
    reply: StoreReplyView,
    words: Seq<char>,
)
    requires
        service.spec_issued_at(token, user_id, TokenType::Refresh, issued),
    ensures
        ({
            let verdict = spec_verify(jwt_claims(token, service.secret()), now, reply);
            let seen: Result<JwtDataView, Seq<char>> = match verdict {
                Ok(data) => Ok(data),
                Err(_) => Err(words),
            };
            &&& spec_verified(seen) matches Err(AuthErrorView::InvalidToken(token_type, _))
            &&& token_type == TOKEN_JWT@
            &&& now <= issued + service.ttl(TokenType::Refresh) && !spec_is_revoked(reply)
                ==> spec_verified(seen) == Err::<i32, AuthErrorView>(
                AuthErrorView::InvalidToken(TOKEN_JWT@, INVALID_TOKEN_TYPE@),
            )
        }),
{
    crate::services::jwt::law_issued_token_verifies_or_fails(
        service,
        token,
        user_id,
        TokenType::Refresh,
        issued,
        now,
        reply,
    );
}

/// All denials of the admission gate are answered as unauthorized.
pub proof fn law_gate_denials_are_unauthorized(
    authorization: Option<Seq<char>>,
    refresh: Option<Seq<char>>,
    verdict: Result<JwtDataView, Seq<char>>,
)
    ensures
        spec_extract(authorization, refresh) matches Err(denial) ==> denial.status_code()
            == crate::errors::UNAUTHORIZED,
        spec_verified(verdict) matches Err(denial) ==> denial.status_code()
            == crate::errors::UNAUTHORIZED,
        spec_user_not_found().status_code() == crate::errors::UNAUTHORIZED,
{
}

/// The access token that the service issued to the user with a given id
/// passes the admission gate as that user's, at every second up to its expiry, as long
/// as the revocation list does not hold it.
pub proof fn law_issued_access_token_passes(
    service: JwtService,
    token: Seq<char>,
    id: i32,
    issued: int,
    now: int,
    reply: StoreReplyView,
    words: Seq<char>,
)
    requires
        service.spec_issued_at(token, spec_format_integer(id as int), TokenType::Access, issued),
        now <= issued + service.ttl(TokenType::Access),
        !spec_is_revoked(reply),
    ensures
        ({
            let verdict = spec_verify(jwt_claims(token, service.secret()), now, reply);
            let seen: Result<JwtDataView, Seq<char>> = match verdict {
                Ok(data) => Ok(data),
                Err(_) => Err(words),
            };
            spec_verified(seen) == Ok::<i32, AuthErrorView>(id)
        }),
{
    crate::services::jwt::law_issued_token_verifies(
        service,
        token,
        spec_format_integer(id as int),
        TokenType::Access,
        issued,
        now,
        reply,
    );
    crate::text::law_written_i32_reads_back(id);
}

} // verus!
