//! The token service: issues signed access and refresh tokens, verifies
//! them, and says what to write to the revocation list to invalidate one.
//!
//! A token's life runs from issued to valid to either expired or revoked,
//! never back. Verification checks what can be checked locally (signature,
//! payload, expiry) before it asks for a lookup in the revocation list.

use crate::claims::{
    json_members, no_members, object_integer, object_new, object_put_integer, object_put_text,
    object_text, spec_integer_member, spec_text_member, JsonValue,
};
use crate::clock::{spec_clock_second, unix_now, LATEST_SECOND};
use crate::config::AppConfig;
use crate::dto::user::AuthTokens;
use crate::revocation::{
    blacklist_key, revoke, spec_blacklist_key, spec_is_revoked, spec_revoke, RevocationRequest,
    StoreModel, StoreReply, StoreReplyView, GRACE_SECONDS,
};
use crate::services::encryption::WORKER_LOST;
use crate::signing::{
    flat_payload, jwt_claims, jwt_decode, jwt_encode, jwt_error_text, passes_registered_claims,
};
use vstd::prelude::*;

verus! {

/// What a token is for.
#[derive(Clone, Copy, Debug, PartialEq, Eq, Structural)]
pub enum TokenType {
    Access,
    Refresh,
}

/// The name of the payload member that holds the subject.
pub const CLAIM_USER_ID: &'static str = "user_id";

/// The name of the payload member that holds the kind.
pub const CLAIM_KIND: &'static str = "kind";

/// The name of the payload member that holds the second of issue.
pub const CLAIM_ISSUED_AT: &'static str = "iat";

/// The name of the payload member that holds the second of expiry.
pub const CLAIM_EXPIRES_AT: &'static str = "exp";

/// How the payload writes the access kind.
pub const KIND_ACCESS: &'static str = "access";

/// How the payload writes the refresh kind.
pub const KIND_REFRESH: &'static str = "refresh";

impl TokenType {
    /// How the payload writes this kind.
    pub open spec fn spec_name(self) -> Seq<char> {
        match self {
            TokenType::Access => KIND_ACCESS@,
            TokenType::Refresh => KIND_REFRESH@,
        }
    }

    /// The kind that the payload writes as `name`, if there is one.
    pub open spec fn spec_named(name: Seq<char>) -> Option<TokenType> {
        if name == KIND_ACCESS@ {
            Some(TokenType::Access)
        } else if name == KIND_REFRESH@ {
            Some(TokenType::Refresh)
        } else {
            None
        }
    }

    /// How the payload writes this kind.
    pub fn name(self) -> (name: &'static str)
        ensures
            name@ == self.spec_name(),
    {
        match self {
            TokenType::Access => KIND_ACCESS,
            TokenType::Refresh => KIND_REFRESH,
        }
    }

    /// The kind that the payload writes as `name`, if there is one.
    pub fn named(name: &str) -> (kind: Option<TokenType>)
        ensures
            kind == Self::spec_named(name@),
    {
        let given = name.to_owned();
        if given == KIND_ACCESS.to_owned() {
            Some(TokenType::Access)
        } else if given == KIND_REFRESH.to_owned() {
            Some(TokenType::Refresh)
        } else {
            None
        }
    }
}

/// The two kinds are written differently, so a name reads back as the kind
/// that wrote it.
pub proof fn law_kind_name_reads_back(kind: TokenType)
    ensures
        TokenType::spec_named(kind.spec_name()) == Some(kind),
{
    reveal_strlit("access");
    reveal_strlit("refresh");
    assert(KIND_ACCESS@.len() != KIND_REFRESH@.len());
}

/// What a verified token says: who it was issued to and what for.
#[derive(Debug)]
pub struct JwtData {
    pub user_id: String,
    pub kind: TokenType,
}

/// A [`JwtData`] as a mathematical value.
pub struct JwtDataView {
    pub user_id: Seq<char>,
    pub kind: TokenType,
}

impl View for JwtData {
    type V = JwtDataView;

    open spec fn view(&self) -> JwtDataView {
        JwtDataView { user_id: self.user_id@, kind: self.kind }
    }
}

impl JwtData {
    pub fn new(user_id: &str, kind: TokenType) -> (data: Self)
        ensures
            data@ == (JwtDataView { user_id: user_id@, kind }),
    {
        JwtData { user_id: user_id.to_owned(), kind }
    }
}

/// The payload of a token: the subject, the kind, and the seconds since the
/// Unix epoch at which it was issued and at which it expires.
#[derive(Debug)]
pub struct TokenClaims {
    pub user_id: String,
    pub kind: TokenType,
    pub iat: i64,
    pub exp: i64,
}

/// [`TokenClaims`] as a mathematical value.
pub struct TokenClaimsView {
    pub user_id: Seq<char>,
    pub kind: TokenType,
    pub iat: int,
    pub exp: int,
}

impl View for TokenClaims {
    type V = TokenClaimsView;

    open spec fn view(&self) -> TokenClaimsView {
        TokenClaimsView {
            user_id: self.user_id@,
            kind: self.kind,
            iat: self.iat as int,
            exp: self.exp as int,
        }
    }
}

impl TokenClaimsView {
    /// Whether both seconds fit in an `i64`, as those of every payload do.
    pub open spec fn in_range(self) -> bool {
        i64::MIN <= self.iat <= i64::MAX && i64::MIN <= self.exp <= i64::MAX
    }

    /// What the token says once it is verified.
    pub open spec fn data(self) -> JwtDataView {
        JwtDataView { user_id: self.user_id, kind: self.kind }
    }
}

/// The JSON object that carries `claims`: the subject and the kind as
/// strings, the two seconds as integers.
pub open spec fn spec_payload(claims: TokenClaimsView) -> Map<Seq<char>, JsonValue> {
    no_members().insert(CLAIM_USER_ID@, JsonValue::Text(claims.user_id)).insert(
        CLAIM_KIND@,
        JsonValue::Text(claims.kind.spec_name()),
    ).insert(CLAIM_ISSUED_AT@, JsonValue::Integer(claims.iat)).insert(
        CLAIM_EXPIRES_AT@,
        JsonValue::Integer(claims.exp),
    )
}

/// The claims that a JSON object carries: it must hold the subject as a
/// string, a kind that is one of the two names, and both seconds as integers
/// within `i64`. Other members are passed over.
pub open spec fn spec_read_payload(members: Map<Seq<char>, JsonValue>) -> Option<TokenClaimsView> {
    match (
        spec_text_member(members, CLAIM_USER_ID@),
        spec_text_member(members, CLAIM_KIND@),
        spec_integer_member(members, CLAIM_ISSUED_AT@),
        spec_integer_member(members, CLAIM_EXPIRES_AT@),
    ) {
        (Some(user_id), Some(kind_name), Some(iat), Some(exp)) => match TokenType::spec_named(
            kind_name,
        ) {
            Some(kind) => Some(
                TokenClaimsView { user_id, kind, iat: iat as int, exp: exp as int },
            ),
            None => None,
        },
        _ => None,
    }
}

/// The four member names differ from each other and from `aud`.
proof fn lemma_claim_names_differ()
    ensures
        CLAIM_USER_ID@ != CLAIM_KIND@,
        CLAIM_USER_ID@ != CLAIM_ISSUED_AT@,
        CLAIM_USER_ID@ != CLAIM_EXPIRES_AT@,
        CLAIM_KIND@ != CLAIM_ISSUED_AT@,
        CLAIM_KIND@ != CLAIM_EXPIRES_AT@,
        CLAIM_ISSUED_AT@ != CLAIM_EXPIRES_AT@,
        CLAIM_USER_ID@ != "aud"@,
        CLAIM_KIND@ != "aud"@,
        CLAIM_ISSUED_AT@ != "aud"@,
        CLAIM_EXPIRES_AT@ != "aud"@,
        CLAIM_EXPIRES_AT@ == "exp"@,
{
    reveal_strlit("user_id");
    reveal_strlit("kind");
    reveal_strlit("iat");
    reveal_strlit("exp");
    reveal_strlit("aud");
    assert(CLAIM_USER_ID@.len() == 7);
    assert(CLAIM_KIND@.len() == 4);
    assert(CLAIM_ISSUED_AT@[0] == 'i');
    assert(CLAIM_EXPIRES_AT@[0] == 'e');
    assert("aud"@[0] == 'a');
}

/// A payload written from claims reads back as those claims, is flat, and
/// passes the decoder's checks on registered claims exactly when the expiry
/// is not before the epoch.
pub proof fn law_payload_reads_back(claims: TokenClaimsView)
    requires
        claims.in_range(),
    ensures
        spec_read_payload(spec_payload(claims)) == Some(claims),
        flat_payload(spec_payload(claims)),
        passes_registered_claims(spec_payload(claims)) <==> claims.exp >= 0,
{
    lemma_claim_names_differ();
    law_kind_name_reads_back(claims.kind);
}

/// The JSON object that carries `claims`.
pub fn payload_of(claims: &TokenClaims) -> (object: serde_json::Map<String, serde_json::Value>)
    ensures
        json_members(object) == spec_payload(claims@),
{
    let mut object = object_new();
    object_put_text(&mut object, CLAIM_USER_ID, claims.user_id.as_str());
    object_put_text(&mut object, CLAIM_KIND, claims.kind.name());
    object_put_integer(&mut object, CLAIM_ISSUED_AT, claims.iat);
    object_put_integer(&mut object, CLAIM_EXPIRES_AT, claims.exp);
    object
}

/// The claims that a JSON object carries, or nothing where a member is
/// missing or of the wrong form.
pub fn read_payload(object: &serde_json::Map<String, serde_json::Value>) -> (claims: Option<
    TokenClaims,
>)
    ensures
        claims is Some <==> spec_read_payload(json_members(*object)) is Some,
        claims matches Some(c) ==> spec_read_payload(json_members(*object)) == Some(c@),
{
    let user_id = match object_text(object, CLAIM_USER_ID) {
        Some(user_id) => user_id,
        None => { return None; },
    };
    let kind_name = match object_text(object, CLAIM_KIND) {
        Some(kind_name) => kind_name,
        None => { return None; },
    };
    let iat = match object_integer(object, CLAIM_ISSUED_AT) {
        Some(iat) => iat,
        None => { return None; },
    };
    let exp = match object_integer(object, CLAIM_EXPIRES_AT) {
        Some(exp) => exp,
        None => { return None; },
    };
    match TokenType::named(kind_name.as_str()) {
        Some(kind) => Some(TokenClaims { user_id, kind, iat, exp }),
        None => None,
    }
}

/// Why a token was refused.
#[derive(Clone, Copy, Debug, PartialEq, Eq, Structural)]
pub enum TokenFailure {
    /// The signature does not match, or the payload is malformed.
    Invalid,
    /// The token's time is up.
    Expired,
    /// The token is on the revocation list.
    Revoked,
}

/// A refusal, with the decoder's own words where it was the one to refuse.
#[derive(Debug)]
pub enum TokenError {
    InvalidToken(String),
    TokenExpired,
    TokenRevoked,
}

/// What is said of a token whose payload lacks a claim.
pub const MALFORMED_CLAIMS: &'static str = "Malformed claims";

/// What is said of an expired token.
pub const TOKEN_EXPIRED: &'static str = "Token expired";

/// What is said of a revoked token.
pub const TOKEN_BLACKLISTED: &'static str = "Token blacklisted";

/// What is said when the settings give a token no time to live, or more
/// than the calendar holds.
pub const LIFETIME_OUT_OF_RANGE: &'static str = "Token lifetime out of range";

impl TokenError {
    /// Why the token was refused.
    pub open spec fn spec_failure(&self) -> TokenFailure {
        match self {
            TokenError::InvalidToken(_) => TokenFailure::Invalid,
            TokenError::TokenExpired => TokenFailure::Expired,
            TokenError::TokenRevoked => TokenFailure::Revoked,
        }
    }

    /// The words that go with this refusal.
    pub open spec fn spec_message(&self) -> Seq<char> {
        match self {
            TokenError::InvalidToken(words) => words@,
            TokenError::TokenExpired => TOKEN_EXPIRED@,
            TokenError::TokenRevoked => TOKEN_BLACKLISTED@,
        }
    }

    /// Why the token was refused.
    pub fn failure(&self) -> (failure: TokenFailure)
        ensures
            failure == self.spec_failure(),
    {
        match self {
            TokenError::InvalidToken(_) => TokenFailure::Invalid,
            TokenError::TokenExpired => TokenFailure::Expired,
            TokenError::TokenRevoked => TokenFailure::Revoked,
        }
    }

    /// The words that go with this refusal.
    pub fn message(&self) -> (words: String)
        ensures
            words@ == self.spec_message(),
    {
        match self {
            TokenError::InvalidToken(words) => words.clone(),
            TokenError::TokenExpired => TOKEN_EXPIRED.to_owned(),
            TokenError::TokenRevoked => TOKEN_BLACKLISTED.to_owned(),
        }
    }
}

/// The claims of a token issued at second `now` to live for `ttl` seconds:
/// none where the life is not positive or one of the two seconds is beyond
/// what an `i64` counts.
pub open spec fn spec_claims_at(user_id: Seq<char>, kind: TokenType, now: int, ttl: int) -> Option<
    TokenClaimsView,
> {
    if ttl > 0 && i64::MIN <= now && now + ttl <= i64::MAX {
        Some(TokenClaimsView { user_id, kind, iat: now, exp: now + ttl })
    } else {
        None
    }
}

/// What the local checks make of a token at second `now`, given the payload
/// that the decoder accepted for it, if it accepted one: invalid without a
/// payload or with one that does not read as claims, expired where `now` is
/// past the expiry, else the claims.
pub open spec fn spec_local_check(payload: Option<Map<Seq<char>, JsonValue>>, now: int) -> Result<
    TokenClaimsView,
    TokenFailure,
> {
    match payload {
        None => Err(TokenFailure::Invalid),
        Some(members) => match spec_read_payload(members) {
            None => Err(TokenFailure::Invalid),
            Some(claims) => if now > claims.exp {
                Err(TokenFailure::Expired)
            } else {
                Ok(claims)
            },
        },
    }
}

/// What verification makes of a token at second `now`, given the decoder's
/// payload and the reply of the revocation list: the local checks come
/// first, and only a token that passes them can be found revoked.
pub open spec fn spec_verify(
    payload: Option<Map<Seq<char>, JsonValue>>,
    now: int,
    reply: StoreReplyView,
) -> Result<JwtDataView, TokenFailure> {
    match spec_local_check(payload, now) {
        Err(failure) => Err(failure),
        Ok(claims) => if spec_is_revoked(reply) {
            Err(TokenFailure::Revoked)
        } else {
            Ok(claims.data())
        },
    }
}

/// What invalidating a token at second `now` asks of the revocation list,
/// given the decoder's payload: an entry that outlives the token by the
/// grace period, or nothing for a token that is older than that.
pub open spec fn spec_invalidate(
    payload: Option<Map<Seq<char>, JsonValue>>,
    token: Seq<char>,
    now: int,
) -> Result<Option<crate::revocation::RevocationRequestView>, TokenFailure> {
    match payload {
        None => Err(TokenFailure::Invalid),
        Some(members) => match spec_read_payload(members) {
            None => Err(TokenFailure::Invalid),
            Some(claims) => Ok(spec_revoke(token, claims.exp - now + GRACE_SECONDS)),
        },
    }
}

/// A token that passed the local checks and waits for the reply of the
/// revocation list. Only the token service makes one, so that no token is
/// resolved that did not pass.
#[derive(Debug)]
pub struct PendingDecode {
    key: String,
    data: JwtData,
}

/// Where verification stands after the local checks.
#[derive(Debug)]
pub enum DecodeStep {
    /// The token is refused; the revocation list need not be asked.
    Rejected(TokenError),
    /// The token is good so far; look `key` up and resolve.
    Lookup(PendingDecode),
}

impl PendingDecode {
    /// The key to look up.
    pub closed spec fn spec_key(&self) -> Seq<char> {
        self.key@
    }

    /// What the token says, should the list not hold it.
    pub closed spec fn spec_data(&self) -> JwtData {
        self.data
    }

    /// The key to look up.
    pub fn key(&self) -> (key: &str)
        ensures
            key@ == self.spec_key(),
    {
        self.key.as_str()
    }

    /// Ends verification on the reply of the revocation list: revoked where
    /// it holds the marker, else what the token says. A list that cannot be
    /// reached revokes nothing.
    pub fn resolve(self, reply: &StoreReply) -> (verdict: Result<JwtData, TokenError>)
        ensures
            spec_is_revoked(reply@) ==> (verdict matches Err(error) && error is TokenRevoked),
            !spec_is_revoked(reply@) ==> (verdict matches Ok(data) && data == self.spec_data()),
    {
        if reply.is_revoked() {
            Err(TokenError::TokenRevoked)
        } else {
            Ok(self.data)
        }
    }
}

/// Turns the signer's outcome into the service's: the token, or the signer's
/// words on why there is none.
pub fn token_or_failure(outcome: Result<String, jsonwebtoken::errors::Error>) -> (token: Result<
    String,
    String,
>)
    ensures
        outcome matches Ok(signed) ==> (token matches Ok(given) && given == signed),
        outcome is Err ==> token is Err,
{
    match outcome {
        Ok(signed) => Ok(signed),
        Err(error) => Err(jwt_error_text(&error)),
    }
}

/// Whether `pair` is the two issuing outcomes joined: both tokens where both
/// were issued, else the failure of the one that was not, the access token's
/// first. No pair holds one token without the other.
pub open spec fn spec_paired(
    access: Result<String, String>,
    refresh: Result<String, String>,
    pair: Result<AuthTokens, String>,
) -> bool {
    match (access, refresh) {
        (Ok(access_token), Ok(refresh_token)) => pair matches Ok(tokens) && tokens.access_token
            == access_token && tokens.refresh_token == refresh_token,
        (Err(words), _) => pair matches Err(given) && given == words,
        (Ok(_), Err(words)) => pair matches Err(given) && given == words,
    }
}

/// Joins the two tokens of a pair: both or neither. Where one is missing the
/// pair fails with that one's words, the access token's first.
pub fn pair_tokens(access: Result<String, String>, refresh: Result<String, String>) -> (pair:
    Result<AuthTokens, String>)
    ensures
        spec_paired(access, refresh, pair),
        access is Ok && refresh is Ok ==> (pair matches Ok(tokens) && tokens.access_token
            == access->Ok_0 && tokens.refresh_token == refresh->Ok_0),
        access is Err ==> (pair matches Err(words) && words == access->Err_0),
        access is Ok && refresh is Err ==> (pair matches Err(words) && words == refresh->Err_0),
{
    match access {
        Err(words) => Err(words),
        Ok(access_token) => match refresh {
            Err(words) => Err(words),
            Ok(refresh_token) => Ok(AuthTokens { access_token, refresh_token }),
        },
    }
}

/// What the caller of a worker gets for a credential pair: the worker's
/// outcome, or, where the worker went away without one, the failure that
/// says so. No pair is made up for a worker that was lost.
pub fn settle_pair(reply: Option<Result<AuthTokens, String>>) -> (pair: Result<AuthTokens, String>)
    ensures
        reply matches Some(outcome) ==> pair == outcome,
        reply is None ==> (pair matches Err(words) && words@ == WORKER_LOST@),
{
    match reply {
        Some(outcome) => outcome,
        None => Err(WORKER_LOST.to_owned()),
    }
}

/// Issues, verifies and invalidates tokens under one shared secret.
///
/// The functions that read the clock themselves do not return on a machine
/// whose clock stands before the Unix epoch; those that take the second as
/// an argument do not read it.
#[derive(Clone, Debug)]
pub struct JwtService {
    app_config: AppConfig,
}

impl JwtService {
    /// The secret that tokens are signed with.
    pub closed spec fn secret(&self) -> Seq<char> {
        self.app_config.jwt_secret@
    }

    /// The seconds that a token of this kind lives.
    pub closed spec fn ttl(&self, kind: TokenType) -> int {
        match kind {
            TokenType::Access => self.app_config.jwt_access_expiration as int,
            TokenType::Refresh => self.app_config.jwt_refresh_expiration as int,
        }
    }

    /// Whether `token` is one that the decoder accepts under this service's
    /// secret with the payload of `claims`.
    pub open spec fn spec_issued(&self, token: Seq<char>, claims: TokenClaimsView) -> bool {
        jwt_claims(token, self.secret()) == Some(spec_payload(claims))
    }

    /// Whether `token` is one that this service issues to `user_id` at second
    /// `now`.
    pub open spec fn spec_issued_at(
        &self,
        token: Seq<char>,
        user_id: Seq<char>,
        kind: TokenType,
        now: int,
    ) -> bool {
        spec_claims_at(user_id, kind, now, self.ttl(kind)) matches Some(claims)
            && self.spec_issued(token, claims)
    }

    /// Whether `token` is what issuing to `user_id` at second `now` comes to.
    /// Where the settings give the token no claims at that second, it is the
    /// failure that says so. Where they do, it is a token, and one that
    /// carries exactly those claims: the decoder accepts it under this
    /// service's secret unless it expires before the epoch.
    pub open spec fn spec_built_at(
        &self,
        token: Result<String, String>,
        user_id: Seq<char>,
        kind: TokenType,
        now: int,
    ) -> bool {
        match spec_claims_at(user_id, kind, now, self.ttl(kind)) {
            None => token matches Err(words) && words@ == LIFETIME_OUT_OF_RANGE@,
            Some(claims) => token matches Ok(signed) && (claims.exp >= 0 ==> self.spec_issued(
                signed@,
                claims,
            )),
        }
    }

    /// Whether tokens of this kind can be issued at every second that the
    /// clock can show: their life is positive, and short enough to end
    /// within what an `i64` counts even from the last such second.
    pub open spec fn spec_life_fits(&self, kind: TokenType) -> bool {
        0 < self.ttl(kind) <= i64::MAX - LATEST_SECOND
    }

    /// Whether `pair` is what issuing a credential pair to `user_id` comes to:
    /// the join of an access token and a refresh token, each issued at a
    /// second of its own that the clock can show.
    pub open spec fn spec_pair_built(
        &self,
        pair: Result<AuthTokens, String>,
        user_id: Seq<char>,
    ) -> bool {
        exists|
            access: Result<String, String>,
            refresh: Result<String, String>,
            first: int,
            second: int,
        |
            #![trigger
                self.spec_built_at(access, user_id, TokenType::Access, first),
                self.spec_built_at(refresh, user_id, TokenType::Refresh, second),
            ]
            spec_clock_second(first) && spec_clock_second(second) && self.spec_built_at(
                access,
                user_id,
                TokenType::Access,
                first,
            ) && self.spec_built_at(refresh, user_id, TokenType::Refresh, second) && spec_paired(
                access,
                refresh,
                pair,
            )
    }

    /// Whether `step` is where verification of `token` stands after the local
    /// checks at second `now`.
    pub open spec fn spec_decode_step(&self, step: DecodeStep, token: Seq<char>, now: int) -> bool {
        match spec_local_check(jwt_claims(token, self.secret()), now) {
            Err(failure) => step matches DecodeStep::Rejected(error) && error.spec_failure()
                == failure,
            Ok(claims) => step matches DecodeStep::Lookup(pending) && pending.spec_key()
                == spec_blacklist_key(token) && pending.spec_data()@ == claims.data(),
        }
    }

    /// Whether `outcome` is what invalidating `token` at second `now` comes
    /// to.
    pub open spec fn spec_invalidated(
        &self,
        outcome: Result<Option<RevocationRequest>, TokenError>,
        token: Seq<char>,
        now: int,
    ) -> bool {
        match spec_invalidate(jwt_claims(token, self.secret()), token, now) {
            Err(failure) => outcome matches Err(error) && error.spec_failure() == failure,
            Ok(None) => outcome matches Ok(None),
            Ok(Some(entry)) => outcome matches Ok(Some(request)) && request@ == entry,
        }
    }

    pub fn new(app_config: AppConfig) -> (service: Self)
        ensures
            service.secret() == app_config.jwt_secret@,
            service.ttl(TokenType::Access) == app_config.jwt_access_expiration,
            service.ttl(TokenType::Refresh) == app_config.jwt_refresh_expiration,
    {
        JwtService { app_config }
    }

    /// The claims of a token issued to `user_id` at second `now`.
    pub fn claims_at(&self, user_id: &str, kind: TokenType, now: i64) -> (claims: Option<
        TokenClaims,
    >)
        ensures
            claims is Some <==> spec_claims_at(user_id@, kind, now as int, self.ttl(kind)) is Some,
            claims matches Some(c) ==> spec_claims_at(user_id@, kind, now as int, self.ttl(kind))
                == Some(c@),
    {
        let ttl = match kind {
            TokenType::Access => self.app_config.jwt_access_expiration,
            TokenType::Refresh => self.app_config.jwt_refresh_expiration,
        };
        if ttl <= 0 {
            return None;
        }
        match now.checked_add(ttl) {
            None => None,
            Some(exp) => Some(TokenClaims { user_id: user_id.to_owned(), kind, iat: now, exp }),
        }
    }

    /// Issues a token of the given kind to `user_id` as of second `now`.
    ///
    /// It fails exactly where the settings give the token no claims at that
    /// second: a life that is not positive, or one that ends beyond what an
    /// `i64` counts. Else it returns a token that carries exactly those
    /// claims: issued at `now`, expiring a life later, for this subject and
    /// of this kind. The decoder accepts it under this service's secret
    /// unless it expires before the epoch.
    pub fn build_token_at(&self, user_id: &str, kind: TokenType, now: i64) -> (token: Result<
        String,
        String,
    >)
        ensures
            self.spec_built_at(token, user_id@, kind, now as int),
    {
        match self.claims_at(user_id, kind, now) {
            None => Err(LIFETIME_OUT_OF_RANGE.to_owned()),
            Some(claims) => {
                proof {
                    law_payload_reads_back(claims@);
                }
                let payload = payload_of(&claims);
                token_or_failure(jwt_encode(&payload, self.app_config.jwt_secret.as_str()))
            },
        }
    }

    /// Issues an access token to `user_id` as of the clock's second.
    ///
    /// The outcome is that of issuing at some second that the clock can
    /// show; which one is the clock's to say. So a token is returned whenever
    /// the life of access tokens fits: it is issued at that second, expires a
    /// life later, and the decoder accepts it under this service's secret. A
    /// life that is not positive fails every call. The only failure there is
    /// is that of a life out of range, and it says so.
    pub fn build_access_token(&self, user_id: &str) -> (token: Result<String, String>)
        ensures
            exists|now: int|
                spec_clock_second(now) && #[trigger] self.spec_built_at(
                    token,
                    user_id@,
                    TokenType::Access,
                    now,
                ),
            self.spec_life_fits(TokenType::Access) ==> token is Ok,
            self.ttl(TokenType::Access) <= 0 ==> token is Err,
            token matches Err(words) ==> words@ == LIFETIME_OUT_OF_RANGE@,
            token matches Ok(signed) ==> exists|now: int|
                spec_clock_second(now) && #[trigger] self.spec_issued_at(
                    signed@,
                    user_id@,
                    TokenType::Access,
                    now,
                ),
    {
        let now = unix_now();
        let token = self.build_token_at(user_id, TokenType::Access, now);
        proof {
            assert(self.spec_built_at(token, user_id@, TokenType::Access, now as int));
            if token is Ok {
                assert(self.spec_issued_at(
                    token->Ok_0@,
                    user_id@,
                    TokenType::Access,
                    now as int,
                ));
            }
        }
        token
    }

    /// Issues a refresh token to `user_id` as of the clock's second.
    ///
    /// The outcome is that of issuing at some second that the clock can
    /// show; which one is the clock's to say. So a token is returned whenever
    /// the life of refresh tokens fits: it is issued at that second, expires a
    /// life later, and the decoder accepts it under this service's secret. A
    /// life that is not positive fails every call. The only failure there is
    /// is that of a life out of range, and it says so.
    pub fn build_refresh_token(&self, user_id: &str) -> (token: Result<String, String>)
        ensures
            exists|now: int|
                spec_clock_second(now) && #[trigger] self.spec_built_at(
                    token,
                    user_id@,
                    TokenType::Refresh,
                    now,
                ),
            self.spec_life_fits(TokenType::Refresh) ==> token is Ok,
            self.ttl(TokenType::Refresh) <= 0 ==> token is Err,
            token matches Err(words) ==> words@ == LIFETIME_OUT_OF_RANGE@,
            token matches Ok(signed) ==> exists|now: int|
                spec_clock_second(now) && #[trigger] self.spec_issued_at(
                    signed@,
                    user_id@,
                    TokenType::Refresh,
                    now,
                ),
    {
        let now = unix_now();
        let token = self.build_token_at(user_id, TokenType::Refresh, now);
        proof {
            assert(self.spec_built_at(token, user_id@, TokenType::Refresh, now as int));
            if token is Ok {
                assert(self.spec_issued_at(
                    token->Ok_0@,
                    user_id@,
                    TokenType::Refresh,
                    now as int,
                ));
            }
        }
        token
    }

    /// Issues a credential pair to `user_id`: an access token and a refresh
    /// token, or neither.
    ///
    /// The pair is the join of the two issuing outcomes. So a pair is
    /// returned whenever the lives of both kinds fit, and both its tokens are
    /// ones that the decoder accepts under this service's secret, for the
    /// same subject. It fails where either token is not issued, and with it
    /// under settings that give either kind no positive life. The only
    /// failure there is is that of a life out of range, and it says so.
    pub fn build_tokens(&self, user_id: &str) -> (pair: Result<AuthTokens, String>)
        ensures
            self.spec_pair_built(pair, user_id@),
            self.spec_life_fits(TokenType::Access) && self.spec_life_fits(TokenType::Refresh)
                ==> pair is Ok,
            self.ttl(TokenType::Access) <= 0 || self.ttl(TokenType::Refresh) <= 0 ==> pair is Err,
            pair matches Err(words) ==> words@ == LIFETIME_OUT_OF_RANGE@,
            pair matches Ok(tokens) ==> {
                &&& exists|now: int|
                    spec_clock_second(now) && #[trigger] self.spec_issued_at(
                        tokens.access_token@,
                        user_id@,
                        TokenType::Access,
                        now,
                    )
                &&& exists|now: int|
                    spec_clock_second(now) && #[trigger] self.spec_issued_at(
                        tokens.refresh_token@,
                        user_id@,
                        TokenType::Refresh,
                        now,
                    )
            },
    {
        let access_token = self.build_access_token(user_id);
        let refresh_token = self.build_refresh_token(user_id);
        let ghost access = access_token;
        let ghost refresh = refresh_token;
        let pair = pair_tokens(access_token, refresh_token);
        proof {
            let first = choose|now: int|
                spec_clock_second(now) && #[trigger] self.spec_built_at(
                    access,
                    user_id@,
                    TokenType::Access,
                    now,
                );
            let second = choose|now: int|
                spec_clock_second(now) && #[trigger] self.spec_built_at(
                    refresh,
                    user_id@,
                    TokenType::Refresh,
                    now,
                );
            assert(self.spec_built_at(access, user_id@, TokenType::Access, first));
            assert(self.spec_built_at(refresh, user_id@, TokenType::Refresh, second));
            assert(spec_paired(access, refresh, pair));
            assert(self.spec_pair_built(pair, user_id@));
        }
        pair
    }

    /// The local checks on `token` at second `now`: the signature and the
    /// payload first, then the expiry. A token that the decoder refuses is
    /// invalid with the decoder's words; one whose payload is not the claims'
    /// is invalid as malformed.
    pub fn check_at(&self, token: &str, now: i64) -> (checked: Result<TokenClaims, TokenError>)
        ensures
            checked matches Ok(claims) ==> spec_local_check(
                jwt_claims(token@, self.secret()),
                now as int,
            ) == Ok::<TokenClaimsView, TokenFailure>(claims@),
            checked matches Err(error) ==> spec_local_check(
                jwt_claims(token@, self.secret()),
                now as int,
            ) == Err::<TokenClaimsView, TokenFailure>(error.spec_failure()),
            checked matches Err(error) ==> (jwt_claims(token@, self.secret()) is Some && error
                is InvalidToken ==> error.spec_message() == MALFORMED_CLAIMS@),
    {
        match jwt_decode(token, self.app_config.jwt_secret.as_str()) {
            Err(error) => Err(TokenError::InvalidToken(jwt_error_text(&error))),
            Ok(payload) => match read_payload(&payload) {
                None => Err(TokenError::InvalidToken(MALFORMED_CLAIMS.to_owned())),
                Some(claims) => if now > claims.exp {
                    Err(TokenError::TokenExpired)
                } else {
                    Ok(claims)
                },
            },
        }
    }

    /// Verifies `token` at second `now` as far as can be done locally, and
    /// names the key to look up where it passes.
    pub fn decode_at(&self, token: &str, now: i64) -> (step: DecodeStep)
        ensures
            self.spec_decode_step(step, token@, now as int),
    {
        match self.check_at(token, now) {
            Err(error) => DecodeStep::Rejected(error),
            Ok(claims) => DecodeStep::Lookup(
                PendingDecode {
                    key: blacklist_key(token),
                    data: JwtData { user_id: claims.user_id, kind: claims.kind },
                },
            ),
        }
    }

    /// Verifies `token` at the clock's second as far as can be done locally,
    /// and names the key to look up where it passes. Which second that is is
    /// the clock's to say; it is one that the clock can show.
    pub fn decode(&self, token: &str) -> (step: DecodeStep)
        ensures
            exists|now: int|
                spec_clock_second(now) && #[trigger] self.spec_decode_step(step, token@, now),
    {
        let now = unix_now();
        let step = self.decode_at(token, now);
        assert(self.spec_decode_step(step, token@, now as int));
        step
    }

    /// Verifies `token` at second `now` against a reply of the revocation
    /// list that is already at hand.
    pub fn verify_at(&self, token: &str, now: i64, reply: &StoreReply) -> (verdict: Result<
        JwtData,
        TokenError,
    >)
        ensures
            verdict matches Ok(data) ==> spec_verify(
                jwt_claims(token@, self.secret()),
                now as int,
                reply@,
            ) == Ok::<JwtDataView, TokenFailure>(data@),
            verdict matches Err(error) ==> spec_verify(
                jwt_claims(token@, self.secret()),
                now as int,
                reply@,
            ) == Err::<JwtDataView, TokenFailure>(error.spec_failure()),
    {
        match self.decode_at(token, now) {
            DecodeStep::Rejected(error) => Err(error),
            DecodeStep::Lookup(pending) => pending.resolve(reply),
        }
    }

    /// Says what to write to the revocation list to invalidate `token` at
    /// second `now`. A token that the decoder refuses needs no entry and
    /// fails as invalid; one that is older than the grace period needs none
    /// either.
    pub fn invalidate_at(&self, token: &str, now: i64) -> (outcome: Result<
        Option<RevocationRequest>,
        TokenError,
    >)
        requires
            now >= i64::MIN + GRACE_SECONDS,
        ensures
            self.spec_invalidated(outcome, token@, now as int),
    {
        match jwt_decode(token, self.app_config.jwt_secret.as_str()) {
            Err(error) => Err(TokenError::InvalidToken(jwt_error_text(&error))),
            Ok(payload) => match read_payload(&payload) {
                None => Err(TokenError::InvalidToken(MALFORMED_CLAIMS.to_owned())),
                Some(claims) => {
                    let ttl: i128 = claims.exp as i128 - now as i128 + GRACE_SECONDS as i128;
                    Ok(revoke(token, ttl))
                },
            },
        }
    }

    /// Says what to write to the revocation list to invalidate `token` at the
    /// clock's second, which is one that the clock can show.
    pub fn invalidate(&self, token: &str) -> (outcome: Result<
        Option<RevocationRequest>,
        TokenError,
    >)
        ensures
            exists|now: int|
                spec_clock_second(now) && #[trigger] self.spec_invalidated(outcome, token@, now),
    {
        let now = unix_now();
        let outcome = self.invalidate_at(token, now);
        assert(self.spec_invalidated(outcome, token@, now as int));
        outcome
    }
}

/// A token that the service issued to a subject verifies as that subject's,
/// of the kind it was issued as, at every second up to its expiry, as long
/// as the revocation list does not hold it.
pub proof fn law_issued_token_verifies(
    service: JwtService,
    token: Seq<char>,
    user_id: Seq<char>,
    kind: TokenType,
    issued: int,
    now: int,
    reply: StoreReplyView,
)
    requires
        service.spec_issued_at(token, user_id, kind, issued),
        now <= issued + service.ttl(kind),
        !spec_is_revoked(reply),
    ensures
        spec_verify(jwt_claims(token, service.secret()), now, reply) == Ok::<
            JwtDataView,
            TokenFailure,
        >(JwtDataView { user_id, kind }),
{
    let claims = spec_claims_at(user_id, kind, issued, service.ttl(kind))->Some_0;
    law_payload_reads_back(claims);
}

/// The access token of an issued pair verifies as the subject's access
/// token, under the same conditions.
pub proof fn law_issued_access_token_verifies(
    service: JwtService,
    token: Seq<char>,
    user_id: Seq<char>,
    issued: int,
    now: int,
    reply: StoreReplyView,
)
    requires
        service.spec_issued_at(token, user_id, TokenType::Access, issued),
        now <= issued + service.ttl(TokenType::Access),
        !spec_is_revoked(reply),
    ensures
        spec_verify(jwt_claims(token, service.secret()), now, reply) matches Ok(data)
            && data.user_id == user_id && data.kind == TokenType::Access,
{
    law_issued_token_verifies(service, token, user_id, TokenType::Access, issued, now, reply);
}

/// Once the expiry of a token has passed, verification finds it expired,
/// whatever the revocation list says of it.
pub proof fn law_expired_token_is_expired(
    payload: Map<Seq<char>, JsonValue>,
    now: int,
    reply: StoreReplyView,
)
    requires
        spec_read_payload(payload) matches Some(claims) && now > claims.exp,
    ensures
        spec_verify(Some(payload), now, reply) == Err::<JwtDataView, TokenFailure>(
            TokenFailure::Expired,
        ),
{
}

/// A token that does not verify locally is refused for the same reason
/// whatever the revocation list says: the list is only asked about tokens
/// that pass the local checks.
pub proof fn law_local_refusal_stands(
    payload: Option<Map<Seq<char>, JsonValue>>,
    now: int,
    reply: StoreReplyView,
)
    requires
        spec_local_check(payload, now) is Err,
    ensures
        spec_verify(payload, now, reply) == Err::<JwtDataView, TokenFailure>(
            spec_local_check(payload, now)->Err_0,
        ),
{
}

/// Invalidating a token that has not expired, and verifying it in the same
/// second against a store that carried the request out, finds it revoked.
pub proof fn law_invalidated_token_is_revoked(
    payload: Map<Seq<char>, JsonValue>,
    token: Seq<char>,
    now: int,
    store: StoreModel,
)
    requires
        spec_read_payload(payload) matches Some(claims) && now <= claims.exp,
    ensures
        spec_invalidate(Some(payload), token, now) matches Ok(request) && spec_verify(
            Some(payload),
            now,
            store.apply(request, now).lookup(spec_blacklist_key(token), now),
        ) == Err::<JwtDataView, TokenFailure>(TokenFailure::Revoked),
{
}

/// There is no way back to valid: after a token was invalidated, no later
/// verification accepts it, as long as nothing else is written under its
/// key. While the token has not expired the entry is still there, having
/// been given the grace period on top, and after that the token is expired.
pub proof fn law_invalidated_token_never_verifies(
    payload: Map<Seq<char>, JsonValue>,
    token: Seq<char>,
    invalidated: int,
    later: int,
    store: StoreModel,
)
    requires
        spec_read_payload(payload) is Some,
        invalidated <= later,
    ensures
        spec_invalidate(Some(payload), token, invalidated) matches Ok(request) && spec_verify(
            Some(payload),
            later,
            store.apply(request, invalidated).lookup(spec_blacklist_key(token), later),
        ) is Err,
{
}

/// An expired token stays expired.
pub proof fn law_expired_token_stays_expired(
    payload: Option<Map<Seq<char>, JsonValue>>,
    now: int,
    later: int,
)
    requires
        spec_local_check(payload, now) == Err::<TokenClaimsView, TokenFailure>(
            TokenFailure::Expired,
        ),
        now <= later,
    ensures
        spec_local_check(payload, later) == Err::<TokenClaimsView, TokenFailure>(
            TokenFailure::Expired,
        ),
{
}

/// The claims that the service issues expire after they were issued.
pub proof fn law_issued_claims_expire_later(
    user_id: Seq<char>,
    kind: TokenType,
    now: int,
    ttl: int,
)
    ensures
        spec_claims_at(user_id, kind, now, ttl) matches Some(claims) ==> claims.exp > claims.iat
            && claims.in_range() && claims.user_id == user_id && claims.kind == kind,
{
}

/// A token that the service issued verifies, at any second and whatever the
/// revocation list replies, either as what it was issued as or not at all:
/// never as another subject's, never as of another kind.
pub proof fn law_issued_token_verifies_or_fails(
    service: JwtService,
    token: Seq<char>,
    user_id: Seq<char>,
    kind: TokenType,
    issued: int,
    now: int,
    reply: StoreReplyView,
)
    requires
        service.spec_issued_at(token, user_id, kind, issued),
    ensures
        spec_verify(jwt_claims(token, service.secret()), now, reply) matches Ok(data)
            ==> data.user_id == user_id && data.kind == kind,
        now <= issued + service.ttl(kind) && !spec_is_revoked(reply) ==> spec_verify(
            jwt_claims(token, service.secret()),
            now,
            reply,
        ) is Ok,
{
    let claims = spec_claims_at(user_id, kind, issued, service.ttl(kind))->Some_0;
    law_payload_reads_back(claims);
}

/// Issuing at a second at which the life fits returns a token, and the token
/// is what was asked for: its payload is the subject, the kind, the second
/// of issue and, a life later, the second of expiry, which comes after the
/// issue; and the decoder accepts it under the service's secret, from the
/// epoch on.
pub proof fn law_built_token_carries_claims(
    service: JwtService,
    token: Result<String, String>,
    user_id: Seq<char>,
    kind: TokenType,
    now: int,
)
    requires
        service.spec_built_at(token, user_id, kind, now),
        service.ttl(kind) > 0,
        0 <= now,
        now + service.ttl(kind) <= i64::MAX,
    ensures
        token matches Ok(signed) && ({
            let claims = TokenClaimsView {
                user_id,
                kind,
                iat: now,
                exp: now + service.ttl(kind),
            };
            &&& claims.exp > claims.iat
            &&& jwt_claims(signed@, service.secret()) == Some(spec_payload(claims))
            &&& spec_read_payload(spec_payload(claims)) == Some(claims)
            &&& service.spec_issued_at(signed@, user_id, kind, now)
        }),
{
    let claims = TokenClaimsView { user_id, kind, iat: now, exp: now + service.ttl(kind) };
    law_payload_reads_back(claims);
}

} // verus!
