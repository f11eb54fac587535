//! Signed tokens: the calls into `jsonwebtoken`, with what is trusted of them.
//!
//! Tokens are signed with HMAC-SHA256 under one shared secret. Nothing here is
//! proved; each contract says what the crate's source shows of the call.

use crate::claims::{json_members, JsonValue};
use vstd::prelude::*;

verus! {

/// `jsonwebtoken::errors::Error`, why the signer or the decoder failed.
/// Nothing of its inside is seen here but its text.
#[verifier::external_type_specification]
#[verifier::external_body]
pub struct ExJwtError(jsonwebtoken::errors::Error);

/// The payload that `jsonwebtoken::decode` accepts for `token` under `secret`
/// when it checks everything but the clock, or nothing where it refuses the
/// token.
pub uninterp spec fn jwt_claims(token: Seq<char>, secret: Seq<char>) -> Option<
    Map<Seq<char>, JsonValue>,
>;

/// A payload that passes the decoder's checks on registered claims: it has an
/// `exp` that is a non-negative integer, and it names no audience.
pub open spec fn passes_registered_claims(members: Map<Seq<char>, JsonValue>) -> bool {
    &&& members.contains_key("exp"@)
    &&& members["exp"@] matches JsonValue::Integer(expiry)
    &&& expiry >= 0
    &&& !members.contains_key("aud"@)
}

/// A payload without depth: every member is a string or an integer. The
/// decoder reads nested values only down to a fixed depth, which the signer
/// does not hold itself to, so the signer is handed flat payloads only.
pub open spec fn flat_payload(members: Map<Seq<char>, JsonValue>) -> bool {
    forall|name: Seq<char>| members.contains_key(name) ==> !(#[trigger] members[name] is Other)
}

/// `jsonwebtoken::encode` with the default header (HS256) and the secret as
/// HMAC key, on a flat payload. It returns a token: a secret is a key of the
/// header's family, the header and a flat object are written as JSON into
/// memory, where nothing can fail, and the HMAC signature is always made. The
/// token is one that `decode` accepts under the same secret, with the same
/// payload, provided the payload passes the decoder's checks on registered
/// claims.
#[verifier::external_body]
pub(crate) fn jwt_encode(
    payload: &serde_json::Map<String, serde_json::Value>,
    secret: &str,
) -> (token: Result<String, jsonwebtoken::errors::Error>)
    requires
        flat_payload(json_members(*payload)),
    ensures
        token is Ok,
        token matches Ok(t) ==> (passes_registered_claims(json_members(*payload)) ==> jwt_claims(
            t@,
            secret@,
        ) == Some(json_members(*payload))),
{
    let key = jsonwebtoken::EncodingKey::from_secret(secret.as_bytes());
    jsonwebtoken::encode(&jsonwebtoken::Header::default(), payload, &key)
}

/// `jsonwebtoken::decode` with the default validation (HS256, `exp` required)
/// but with the comparison of `exp` against the clock switched off, so that
/// the outcome depends on the token and the secret alone. It returns the
/// payload exactly when the token is well formed, signed under `secret`, and
/// its registered claims pass.
#[verifier::external_body]
pub(crate) fn jwt_decode(token: &str, secret: &str) -> (payload: Result<
    serde_json::Map<String, serde_json::Value>,
    jsonwebtoken::errors::Error,
>)
    ensures
        payload matches Ok(object) ==> jwt_claims(token@, secret@) == Some(json_members(object)),
        payload is Err ==> jwt_claims(token@, secret@) is None,
{
    let mut validation = jsonwebtoken::Validation::default();
    validation.validate_exp = false;
    let key = jsonwebtoken::DecodingKey::from_secret(secret.as_bytes());
    jsonwebtoken::decode::<serde_json::Map<String, serde_json::Value>>(token, &key, &validation)
        .map(|data| data.claims)
}

/// The `Display` text of a `jsonwebtoken` error. Nothing is claimed of it.
#[verifier::external_body]
pub(crate) fn jwt_error_text(error: &jsonwebtoken::errors::Error) -> (text: String) {
    error.to_string()
}

} // verus!
