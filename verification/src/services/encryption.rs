//! Password hashing.
//!
//! Hashing is slow on purpose. The functions here do the work where they are
//! called; a caller that serves network traffic hands them to a worker and
//! settles on the worker's reply with [`EncryptionService::settle_hash`] and
//! [`EncryptionService::settle_verdict`].

use vstd::prelude::*;
use vstd::string::StringSliceAdditionalSpecFns;

verus! {

/// Whether `password_auth::verify_password` accepts `password` for `hash`.
pub uninterp spec fn password_matches(password: Seq<char>, hash: Seq<char>) -> bool;

/// The longest password, in bytes, that the hasher takes.
pub const MAX_PASSWORD_BYTES: usize = 0xFFFF_FFFF;

/// `password_auth::generate_hash`: a salted Argon2 hash of the password in
/// PHC form. The salt is drawn anew on each call, so two calls differ; what
/// holds of every outcome is that `verify_password` accepts the password for
/// it. The hasher refuses passwords beyond `MAX_PASSWORD_BYTES`, which the
/// call turns into a panic; they are left out.
#[verifier::external_body]
pub(crate) fn generate_hash(password: &str) -> (hash: String)
    requires
        password.spec_bytes().len() <= MAX_PASSWORD_BYTES,
    ensures
        password_matches(password@, hash@),
{
    password_auth::generate_hash(password)
}

/// `password_auth::verify_password`, as a yes or no: it recomputes the hash
/// with the parameters and salt that `hash` names and compares in constant
/// time. A hash that does not parse is a no.
#[verifier::external_body]
pub(crate) fn verify_hash(password: &str, hash: &str) -> (accepted: bool)
    ensures
        accepted == password_matches(password@, hash@),
{
    password_auth::verify_password(password, hash).is_ok()
}

/// Why there is no hash.
#[derive(Clone, Copy, Debug, PartialEq, Eq, Structural)]
pub enum HashingFailed {
    /// The worker that was to hash went away without a reply.
    WorkerLost,
    /// The password is longer than the hasher takes.
    PasswordTooLong,
}

/// What is said when the worker went away.
pub const WORKER_LOST: &'static str = "channel closed";

/// What is said of a password that is too long.
pub const PASSWORD_TOO_LONG: &'static str = "password is too long";

impl HashingFailed {
    /// The words that go with this failure.
    pub open spec fn spec_message(&self) -> Seq<char> {
        match self {
            HashingFailed::WorkerLost => WORKER_LOST@,
            HashingFailed::PasswordTooLong => PASSWORD_TOO_LONG@,
        }
    }

    /// The words that go with this failure.
    pub fn message(&self) -> (words: String)
        ensures
            words@ == self.spec_message(),
    {
        match self {
            HashingFailed::WorkerLost => WORKER_LOST.to_owned(),
            HashingFailed::PasswordTooLong => PASSWORD_TOO_LONG.to_owned(),
        }
    }
}

/// Hashes passwords and checks them against hashes.
#[derive(Clone, Copy, Debug)]
pub struct EncryptionService;

impl EncryptionService {
    pub fn new() -> Self {
        EncryptionService
    }

    /// Whether `hash` is a hash of `password`: what [`Self::verify_password`]
    /// answers.
    pub open spec fn spec_verifies(password: Seq<char>, hash: Seq<char>) -> bool {
        password_matches(password, hash)
    }

    /// Hashes `password`, which it takes over so that no copy is left with
    /// the caller. The hash that it returns is one that verifies for this
    /// password; only a password beyond `MAX_PASSWORD_BYTES` has none.
    pub fn hash_password(&self, password: String) -> (hash: Result<String, HashingFailed>)
        ensures
            hash is Ok <==> vstd::utf8::encode_utf8(password@).len() <= MAX_PASSWORD_BYTES,
            hash matches Ok(encoded) ==> Self::spec_verifies(password@, encoded@),
            hash matches Err(failure) ==> failure == HashingFailed::PasswordTooLong,
    {
        let bytes = password.as_str().as_bytes();
        proof {
            vstd::slice::axiom_spec_len(bytes);
        }
        if bytes.len() <= MAX_PASSWORD_BYTES {
            Ok(generate_hash(password.as_str()))
        } else {
            Err(HashingFailed::PasswordTooLong)
        }
    }

    /// Checks `password` against `hash`. A wrong password is a no, and so is
    /// a hash that is not one.
    pub fn verify_password(&self, password: &str, hash: &str) -> (accepted: bool)
        ensures
            accepted == Self::spec_verifies(password@, hash@),
    {
        verify_hash(password, hash)
    }

    /// What the caller of a worker gets for a hash: the worker's reply, or
    /// the failure that it went away without one.
    pub fn settle_hash(reply: Option<Result<String, HashingFailed>>) -> (hash: Result<
        String,
        HashingFailed,
    >)
        ensures
            reply matches Some(outcome) ==> hash == outcome,
            reply is None ==> hash == Err::<String, HashingFailed>(HashingFailed::WorkerLost),
    {
        match reply {
            Some(outcome) => outcome,
            None => Err(HashingFailed::WorkerLost),
        }
    }

    /// What the caller of a worker gets for a check: the worker's reply, or a
    /// no where it went away without one.
    pub fn settle_verdict(reply: Option<bool>) -> (accepted: bool)
        ensures
            accepted == (reply == Some(true)),
    {
        match reply {
            Some(accepted) => accepted,
            None => false,
        }
    }
}

impl Default for EncryptionService {
    fn default() -> Self {
        EncryptionService
    }
}

} // verus!
