//! The checks that requests are held to before they reach a service.

use vstd::prelude::*;
use vstd::string::StrSliceExecFns;

verus! {

/// Whether `validator` takes `text` for an e-mail address.
pub uninterp spec fn is_email_address(text: Seq<char>) -> bool;

/// `validator::ValidateEmail::validate_email` on a string: whether it is an
/// e-mail address as HTML5 has them, a user part, an `@` and a domain.
#[verifier::external_body]
pub(crate) fn check_email(text: &str) -> (valid: bool)
    ensures
        valid == is_email_address(text@),
{
    validator::ValidateEmail::validate_email(&text)
}

/// Whether `text` has at least `min` and at most `max` characters.
pub open spec fn spec_length_between(text: Seq<char>, min: int, max: int) -> bool {
    min <= text.len() <= max
}

/// Whether `text` has at least `min` and at most `max` characters.
pub fn length_between(text: &str, min: usize, max: usize) -> (within: bool)
    ensures
        within == spec_length_between(text@, min as int, max as int),
{
    let length = text.unicode_len();
    min <= length && length <= max
}

/// The fewest characters of a password.
pub const MIN_PASSWORD_LENGTH: usize = 6;

/// The fewest characters of a profile field that is given.
pub const MIN_FIELD_LENGTH: usize = 2;

/// The most characters of any field.
pub const MAX_FIELD_LENGTH: usize = 255;

/// Whether `password` is of a length that is taken.
pub open spec fn spec_password_ok(password: Seq<char>) -> bool {
    spec_length_between(password, MIN_PASSWORD_LENGTH as int, MAX_FIELD_LENGTH as int)
}

/// Whether a profile field is either left out or of a length that is taken.
pub open spec fn spec_field_ok(field: Option<String>) -> bool {
    match field {
        None => true,
        Some(text) => spec_length_between(text@, MIN_FIELD_LENGTH as int, MAX_FIELD_LENGTH as int),
    }
}

/// Whether a profile field is either left out or of a length that is taken.
pub fn field_ok(field: &Option<String>) -> (ok: bool)
    ensures
        ok == spec_field_ok(*field),
{
    match field {
        None => true,
        Some(text) => length_between(text.as_str(), MIN_FIELD_LENGTH, MAX_FIELD_LENGTH),
    }
}

} // verus!
