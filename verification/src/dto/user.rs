//! Users and their credentials, as requests and responses carry them.

use crate::calendar::BirthDate;
use crate::errors::common::{ValidationError, ValidationErrorView};
use crate::validation::{
    check_email, field_ok, is_email_address, length_between, spec_field_ok, spec_password_ok,
    MAX_FIELD_LENGTH, MIN_PASSWORD_LENGTH,
};
use vstd::prelude::*;
use vstd::std_specs::convert::FromSpecImpl;

verus! {

/// A credential pair: both tokens are issued together, for one subject.
#[derive(Clone, Debug)]
pub struct AuthTokens {
    pub access_token: String,
    pub refresh_token: String,
}

/// A user as the store has it. The password is the hash, never the password.
#[derive(Clone, Debug)]
pub struct UserDto {
    pub id: i32,
    pub email: String,
    pub password: String,
    pub first_name: Option<String>,
    pub second_name: Option<String>,
    pub birth_date: Option<BirthDate>,
    pub gender: Option<String>,
    pub city: Option<String>,
    pub biography: Option<String>,
}

impl Default for UserDto {
    /// A user with nothing filled in.
    fn default() -> (user: Self)
        ensures
            user.id == 0,
            user.email@ == Seq::<char>::empty(),
            user.password@ == Seq::<char>::empty(),
            user.first_name is None,
            user.second_name is None,
            user.birth_date is None,
            user.gender is None,
            user.city is None,
            user.biography is None,
    {
        UserDto {
            id: 0,
            email: String::new(),
            password: String::new(),
            first_name: None,
            second_name: None,
            birth_date: None,
            gender: None,
            city: None,
            biography: None,
        }
    }
}

/// A user together with the credential pair issued to it.
#[derive(Debug)]
pub struct UserWithTokenDto {
    pub user: UserDto,
    pub tokens: AuthTokens,
}

/// What anyone may see of a user.
#[derive(Debug)]
pub struct UserResponse {
    pub id: i32,
    pub first_name: Option<String>,
    pub second_name: Option<String>,
    pub birth_date: Option<String>,
    pub gender: Option<String>,
    pub biography: Option<String>,
    pub city: Option<String>,
}

/// What a user may see of itself.
#[derive(Debug)]
pub struct UserMeResponse {
    pub id: i32,
    pub email: String,
    pub first_name: Option<String>,
    pub second_name: Option<String>,
    pub birth_date: Option<String>,
    pub gender: Option<String>,
    pub city: Option<String>,
    pub biography: Option<String>,
}

/// What a user is sent on signing up or logging in.
#[derive(Debug)]
pub struct UserWithTokenResponse {
    pub user: UserMeResponse,
    pub tokens: AuthTokens,
}

/// A text that may be left out, as a mathematical value.
pub open spec fn spec_text_of(text: Option<String>) -> Option<Seq<char>> {
    match text {
        Some(text) => Some(text@),
        None => None,
    }
}

/// How a birth date is written in a response: as the calendar writes the
/// day, and left out where it is left out or is no day of the calendar.
pub open spec fn spec_birth_text(date: Option<BirthDate>) -> Option<Seq<char>> {
    match date {
        Some(date) => date.spec_text(),
        None => None,
    }
}

/// How a birth date is written in a response.
pub fn birth_text(date: Option<BirthDate>) -> (text: Option<String>)
    ensures
        spec_text_of(text) == spec_birth_text(date),
{
    match date {
        Some(date) => date.text(),
        None => None,
    }
}

impl FromSpecImpl<UserDto> for UserResponse {
    open spec fn obeys_from_spec() -> bool {
        false
    }

    open spec fn from_spec(user: UserDto) -> Self {
        arbitrary()
    }
}

impl From<UserDto> for UserResponse {
    /// The public part of a user: neither the e-mail address nor the
    /// password hash goes along.
    fn from(user: UserDto) -> (response: Self)
        ensures
            response.id == user.id,
            response.first_name == user.first_name,
            response.second_name == user.second_name,
            spec_text_of(response.birth_date) == spec_birth_text(user.birth_date),
            response.gender == user.gender,
            response.biography == user.biography,
            response.city == user.city,
    {
        UserResponse {
            id: user.id,
            first_name: user.first_name,
            second_name: user.second_name,
            birth_date: birth_text(user.birth_date),
            gender: user.gender,
            biography: user.biography,
            city: user.city,
        }
    }
}

impl FromSpecImpl<UserDto> for UserMeResponse {
    open spec fn obeys_from_spec() -> bool {
        false
    }

    open spec fn from_spec(user: UserDto) -> Self {
        arbitrary()
    }
}

impl From<UserDto> for UserMeResponse {
    /// All of a user but the password hash.
    fn from(user: UserDto) -> (response: Self)
        ensures
            response.id == user.id,
            response.email == user.email,
            response.first_name == user.first_name,
            response.second_name == user.second_name,
            spec_text_of(response.birth_date) == spec_birth_text(user.birth_date),
            response.gender == user.gender,
            response.city == user.city,
            response.biography == user.biography,
    {
        UserMeResponse {
            id: user.id,
            email: user.email,
            first_name: user.first_name,
            second_name: user.second_name,
            birth_date: birth_text(user.birth_date),
            gender: user.gender,
            city: user.city,
            biography: user.biography,
        }
    }
}

impl FromSpecImpl<UserWithTokenDto> for UserWithTokenResponse {
    open spec fn obeys_from_spec() -> bool {
        false
    }

    open spec fn from_spec(created: UserWithTokenDto) -> Self {
        arbitrary()
    }
}

impl From<UserWithTokenDto> for UserWithTokenResponse {
    /// The user as it may see itself, with its tokens as they are.
    fn from(create_user_dto: UserWithTokenDto) -> (response: Self)
        ensures
            response.tokens == create_user_dto.tokens,
            response.user.id == create_user_dto.user.id,
            response.user.email == create_user_dto.user.email,
            response.user.first_name == create_user_dto.user.first_name,
            response.user.second_name == create_user_dto.user.second_name,
            spec_text_of(response.user.birth_date) == spec_birth_text(
                create_user_dto.user.birth_date,
            ),
            response.user.gender == create_user_dto.user.gender,
            response.user.city == create_user_dto.user.city,
            response.user.biography == create_user_dto.user.biography,
    {
        UserWithTokenResponse {
            user: UserMeResponse::from(create_user_dto.user),
            tokens: create_user_dto.tokens,
        }
    }
}

/// What a new user sends to sign up.
#[derive(Debug)]
pub struct SignUpDto {
    pub email: String,
    pub password: String,
    pub first_name: Option<String>,
    pub second_name: Option<String>,
    pub gender: Option<String>,
    pub city: Option<String>,
    pub biography: Option<String>,
    pub birth_date: Option<String>,
}

/// What a user sends to log in.
#[derive(Debug)]
pub struct LoginDto {
    pub email: String,
    pub password: String,
}

pub const FIELD_EMAIL: &'static str = "email";

pub const FIELD_PASSWORD: &'static str = "password";

pub const FIELD_FIRST_NAME: &'static str = "first_name";

pub const FIELD_SECOND_NAME: &'static str = "second_name";

pub const FIELD_GENDER: &'static str = "gender";

pub const FIELD_CITY: &'static str = "city";

pub const FIELD_BIOGRAPHY: &'static str = "biography";

pub const FIELD_BIRTH_DATE: &'static str = "birth_date";

/// What is wrong with an e-mail address that is none.
pub const NOT_AN_EMAIL: &'static str = "must be an e-mail address";

/// What is wrong with a field of the wrong length.
pub const WRONG_LENGTH: &'static str = "length is out of range";

/// What is wrong with a birth date that is no day of the calendar.
pub const NOT_A_DATE: &'static str = "must be a date written as year-month-day";

/// The error for an e-mail address that is none.
pub open spec fn spec_bad_email() -> ValidationErrorView {
    ValidationErrorView::InvalidFormat { field: FIELD_EMAIL@, message: NOT_AN_EMAIL@ }
}

/// The error for a field of the wrong length.
pub open spec fn spec_bad_length(field: Seq<char>) -> ValidationErrorView {
    ValidationErrorView::OutOfRange { field, message: WRONG_LENGTH@ }
}

/// The error for a birth date that is no day of the calendar.
pub open spec fn spec_bad_date() -> ValidationErrorView {
    ValidationErrorView::InvalidFormat { field: FIELD_BIRTH_DATE@, message: NOT_A_DATE@ }
}

/// What is wrong with a pair of e-mail address and password, if anything:
/// the address is looked at first.
pub open spec fn spec_check_credentials(email: Seq<char>, password: Seq<char>) -> Option<
    ValidationErrorView,
> {
    if !is_email_address(email) {
        Some(spec_bad_email())
    } else if !spec_password_ok(password) {
        Some(spec_bad_length(FIELD_PASSWORD@))
    } else {
        None
    }
}

/// What is wrong with a pair of e-mail address and password, if anything.
pub fn check_credentials(email: &str, password: &str) -> (fault: Option<ValidationError>)
    ensures
        fault is Some <==> spec_check_credentials(email@, password@) is Some,
        fault matches Some(error) ==> spec_check_credentials(email@, password@) == Some(error@),
{
    if !check_email(email) {
        Some(ValidationError::invalid_format(FIELD_EMAIL, NOT_AN_EMAIL))
    } else if !length_between(password, MIN_PASSWORD_LENGTH, MAX_FIELD_LENGTH) {
        Some(ValidationError::out_of_range(FIELD_PASSWORD, WRONG_LENGTH))
    } else {
        None
    }
}

/// A run of faults as mathematical values, in their order.
pub open spec fn spec_fault_views(faults: Seq<ValidationError>) -> Seq<ValidationErrorView> {
    Seq::new(faults.len(), |at: int| faults[at]@)
}

/// The faults of an e-mail address: that it is none, or nothing.
pub open spec fn spec_email_faults(email: Seq<char>) -> Seq<ValidationErrorView> {
    if is_email_address(email) {
        Seq::empty()
    } else {
        seq![spec_bad_email()]
    }
}

/// The faults of a field whose length is taken or not: that it is out of
/// range, or nothing.
pub open spec fn spec_length_faults(taken: bool, field: Seq<char>) -> Seq<ValidationErrorView> {
    if taken {
        Seq::empty()
    } else {
        seq![spec_bad_length(field)]
    }
}

/// Every fault of a pair of e-mail address and password, the address's
/// first.
pub open spec fn spec_credential_faults(email: Seq<char>, password: Seq<char>) -> Seq<
    ValidationErrorView,
> {
    spec_email_faults(email) + spec_length_faults(spec_password_ok(password), FIELD_PASSWORD@)
}

/// Adds to `faults` that `field` is of a length out of range, unless its
/// length is taken.
fn note_length(faults: &mut Vec<ValidationError>, taken: bool, field: &'static str)
    ensures
        spec_fault_views(final(faults)@) == spec_fault_views(old(faults)@) + spec_length_faults(
            taken,
            field@,
        ),
{
    if !taken {
        faults.push(ValidationError::out_of_range(field, WRONG_LENGTH));
    }
    assert(spec_fault_views(faults@) =~= spec_fault_views(old(faults)@) + spec_length_faults(
        taken,
        field@,
    ));
}

/// Every fault of a pair of e-mail address and password, the address's
/// first.
pub fn credential_faults(email: &str, password: &str) -> (faults: Vec<ValidationError>)
    ensures
        spec_fault_views(faults@) == spec_credential_faults(email@, password@),
{
    let mut faults: Vec<ValidationError> = Vec::new();
    if !check_email(email) {
        faults.push(ValidationError::invalid_format(FIELD_EMAIL, NOT_AN_EMAIL));
    }
    assert(spec_fault_views(faults@) =~= spec_email_faults(email@));
    let taken = length_between(password, MIN_PASSWORD_LENGTH, MAX_FIELD_LENGTH);
    note_length(&mut faults, taken, FIELD_PASSWORD);
    faults
}

/// What is wrong with a pair of e-mail address and password, if anything, is
/// the first of all its faults.
pub proof fn law_first_credential_fault(email: Seq<char>, password: Seq<char>)
    ensures
        spec_check_credentials(email, password) == if spec_credential_faults(email, password).len()
            == 0 {
            None::<ValidationErrorView>
        } else {
            Some(spec_credential_faults(email, password)[0])
        },
{
}

impl LoginDto {
    /// Every fault of the request, in the order of the fields.
    pub open spec fn spec_faults(&self) -> Seq<ValidationErrorView> {
        spec_credential_faults(self.email@, self.password@)
    }

    /// Every fault of the request, in the order of the fields: none for a
    /// request that validates.
    pub fn faults(&self) -> (faults: Vec<ValidationError>)
        ensures
            spec_fault_views(faults@) == self.spec_faults(),
    {
        credential_faults(self.email.as_str(), self.password.as_str())
    }

    /// What is wrong with the request, if anything.
    pub open spec fn spec_validate(&self) -> Option<ValidationErrorView> {
        spec_check_credentials(self.email@, self.password@)
    }

    /// Checks the request: the e-mail address must be one, and the password
    /// of a length that is taken.
    pub fn validate(&self) -> (checked: Result<(), ValidationError>)
        ensures
            checked is Ok <==> self.spec_validate() is None,
            checked matches Err(error) ==> self.spec_validate() == Some(error@),
    {
        match check_credentials(self.email.as_str(), self.password.as_str()) {
            Some(error) => Err(error),
            None => Ok(()),
        }
    }
}

impl SignUpDto {
    /// Every fault of the request, in the order of the fields.
    pub open spec fn spec_faults(&self) -> Seq<ValidationErrorView> {
        spec_credential_faults(self.email@, self.password@) + spec_length_faults(
            spec_field_ok(self.first_name),
            FIELD_FIRST_NAME@,
        ) + spec_length_faults(spec_field_ok(self.second_name), FIELD_SECOND_NAME@)
            + spec_length_faults(spec_field_ok(self.gender), FIELD_GENDER@) + spec_length_faults(
            spec_field_ok(self.city),
            FIELD_CITY@,
        ) + spec_length_faults(spec_field_ok(self.biography), FIELD_BIOGRAPHY@)
            + spec_length_faults(spec_field_ok(self.birth_date), FIELD_BIRTH_DATE@)
    }

    /// Every fault of the request, in the order of the fields: none for a
    /// request that validates.
    pub fn faults(&self) -> (faults: Vec<ValidationError>)
        ensures
            spec_fault_views(faults@) == self.spec_faults(),
    {
        let mut faults = credential_faults(self.email.as_str(), self.password.as_str());
        note_length(&mut faults, field_ok(&self.first_name), FIELD_FIRST_NAME);
        note_length(&mut faults, field_ok(&self.second_name), FIELD_SECOND_NAME);
        note_length(&mut faults, field_ok(&self.gender), FIELD_GENDER);
        note_length(&mut faults, field_ok(&self.city), FIELD_CITY);
        note_length(&mut faults, field_ok(&self.biography), FIELD_BIOGRAPHY);
        note_length(&mut faults, field_ok(&self.birth_date), FIELD_BIRTH_DATE);
        faults
    }

    /// What [`Self::validate`] finds wrong is the first of all faults, and it
    /// finds nothing wrong exactly where there is none.
    pub proof fn law_first_fault(&self)
        ensures
            self.spec_validate() == if self.spec_faults().len() == 0 {
                None::<ValidationErrorView>
            } else {
                Some(self.spec_faults()[0])
            },
    {
        law_first_credential_fault(self.email@, self.password@);
    }

    /// What is wrong with the request, if anything: the first fault in the
    /// order of the fields.
    pub open spec fn spec_validate(&self) -> Option<ValidationErrorView> {
        if spec_check_credentials(self.email@, self.password@) is Some {
            spec_check_credentials(self.email@, self.password@)
        } else if !spec_field_ok(self.first_name) {
            Some(spec_bad_length(FIELD_FIRST_NAME@))
        } else if !spec_field_ok(self.second_name) {
            Some(spec_bad_length(FIELD_SECOND_NAME@))
        } else if !spec_field_ok(self.gender) {
            Some(spec_bad_length(FIELD_GENDER@))
        } else if !spec_field_ok(self.city) {
            Some(spec_bad_length(FIELD_CITY@))
        } else if !spec_field_ok(self.biography) {
            Some(spec_bad_length(FIELD_BIOGRAPHY@))
        } else if !spec_field_ok(self.birth_date) {
            Some(spec_bad_length(FIELD_BIRTH_DATE@))
        } else {
            None
        }
    }

    /// The birth date of the request: none where it is left out, the day
    /// where it writes one.
    pub open spec fn spec_birth_date(&self) -> Result<Option<BirthDate>, ValidationErrorView> {
        match self.birth_date {
            None => Ok(None),
            Some(text) => match BirthDate::spec_parse(text@) {
                Some(date) => Ok(Some(date)),
                None => Err(spec_bad_date()),
            },
        }
    }

    /// Checks the request: e-mail address and password as for logging in,
    /// and every profile field that is given of a length that is taken.
    pub fn validate(&self) -> (checked: Result<(), ValidationError>)
        ensures
            checked is Ok <==> self.spec_validate() is None,
            checked matches Err(error) ==> self.spec_validate() == Some(error@),
    {
        match check_credentials(self.email.as_str(), self.password.as_str()) {
            Some(error) => { return Err(error); },
            None => {},
        }
        if !field_ok(&self.first_name) {
            Err(ValidationError::out_of_range(FIELD_FIRST_NAME, WRONG_LENGTH))
        } else if !field_ok(&self.second_name) {
            Err(ValidationError::out_of_range(FIELD_SECOND_NAME, WRONG_LENGTH))
        } else if !field_ok(&self.gender) {
            Err(ValidationError::out_of_range(FIELD_GENDER, WRONG_LENGTH))
        } else if !field_ok(&self.city) {
            Err(ValidationError::out_of_range(FIELD_CITY, WRONG_LENGTH))
        } else if !field_ok(&self.biography) {
            Err(ValidationError::out_of_range(FIELD_BIOGRAPHY, WRONG_LENGTH))
        } else if !field_ok(&self.birth_date) {
            Err(ValidationError::out_of_range(FIELD_BIRTH_DATE, WRONG_LENGTH))
        } else {
            Ok(())
        }
    }

    /// The user that the request describes, with `hashed_password` in place
    /// of the password and no id yet. It fails where the birth date is given
    /// and writes no day of the calendar.
    pub fn into_user(self, hashed_password: String) -> (user: Result<UserDto, ValidationError>)
        ensures
            match self.spec_birth_date() {
                Err(fault) => user matches Err(error) && error@ == fault,
                Ok(birth_date) => user matches Ok(made) && made.id == 0 && made.email == self.email
                    && made.password == hashed_password && made.first_name == self.first_name
                    && made.second_name == self.second_name && made.birth_date == birth_date
                    && made.gender == self.gender && made.city == self.city && made.biography
                    == self.biography,
            },
    {
        let birth_date = match &self.birth_date {
            None => None,
            Some(text) => match BirthDate::parse(text.as_str()) {
                Some(date) => Some(date),
                None => {
                    return Err(ValidationError::invalid_format(FIELD_BIRTH_DATE, NOT_A_DATE));
                },
            },
        };
        Ok(
            UserDto {
                id: 0,
                email: self.email,
                password: hashed_password,
                first_name: self.first_name,
                second_name: self.second_name,
                birth_date,
                gender: self.gender,
                city: self.city,
                biography: self.biography,
            },
        )
    }
}

} // verus!
