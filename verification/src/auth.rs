use vstd::prelude::*;

use crate::decimal::{decimal_string, spec_decimal};
use crate::error::ApiError;
use crate::models::{NewUser, User};

verus! {

/// What `bcrypt::verify(password, hash)` returns, with its error collapsed to `()`.
pub uninterp spec fn bcrypt_verify_result(password: Seq<char>, hash: Seq<char>) -> Result<bool, ()>;

/// The start of every hash `bcrypt::hash` writes at its default cost:
/// version `2b`, cost `12`.
pub open spec fn bcrypt_default_prefix() -> Seq<char> {
    seq!['$', '2', 'b', '$', '1', '2', '$']
}

/// Calls `bcrypt::hash(password, bcrypt::DEFAULT_COST)`.
///
/// Claimed of it: a hash that comes back is 60 ASCII characters in bcrypt's
/// `$2b$12$` format (`HashParts::format` writes version 2b and the cost, then
/// 22 characters of salt and 31 of hash, all in bcrypt's base64 alphabet), and
/// `bcrypt::verify` accepts `password` against it (verify reads the cost and
/// salt back out of the hash and recomputes it with the same 72-byte
/// truncation). Which hash comes back is left unsaid: the salt is drawn from
/// the operating system's randomness, and so is whether the call fails.
#[verifier::external_body]
fn bcrypt_hash(password: &str) -> (r: Option<String>)
    ensures
        r matches Some(h) ==> h@.len() == 60 && vstd::utf8::is_ascii_chars(h@),
        r matches Some(h) ==> h@.take(7) == bcrypt_default_prefix(),
        r matches Some(h) ==> bcrypt_verify_result(password@, h@) matches Ok(true),
{
    match bcrypt::hash(password, bcrypt::DEFAULT_COST) {
        Ok(h) => Some(h),
        Err(_) => None,
    }
}

/// Calls `bcrypt::verify(password, hash)`.
///
/// Claimed of it: the result is `bcrypt_verify_result` of its arguments, and a
/// hash that is not 60 ASCII characters is refused with an error before any
/// hashing (bcrypt's `split_hash`).
#[verifier::external_body]
fn bcrypt_verify(password: &str, hash: &str) -> (r: Result<bool, ()>)
    ensures
        r == bcrypt_verify_result(password@, hash@),
        !(hash@.len() == 60 && vstd::utf8::is_ascii_chars(hash@)) ==> r is Err,
{
    match bcrypt::verify(password, hash) {
        Ok(b) => Ok(b),
        Err(_) => Err(()),
    }
}

/// The body of a registration request.
#[derive(Debug, Clone)]
pub struct RegisterData {
    pub username: String,
    pub email: String,
    pub password: String,
}

/// The body of a login request.
#[derive(Debug, Clone)]
pub struct LoginData {
    pub username: String,
    pub password: String,
}

/// `user` is a row that registering `data` may store: same name and e-mail,
/// and a password hash under which `data.password` verifies.
pub open spec fn registered_as(data: RegisterData, user: NewUser) -> bool {
    &&& user.username@ == data.username@
    &&& user.email@ == data.email@
    &&& bcrypt_verify_result(data.password@, user.password_hash@) matches Ok(true)
}

/// The user row for a registration request once bcrypt answered: the
/// request's name and e-mail with the hash, or a hashing failure.
pub fn registration_row(data: &RegisterData, password_hash: Option<String>) -> (r: Result<NewUser, ApiError>)
    ensures
        password_hash matches Some(h) ==> r matches Ok(user)
            && user.username@ == data.username@
            && user.email@ == data.email@
            && user.password_hash@ == h@,
        password_hash is None ==> r == Err::<NewUser, ApiError>(ApiError::PasswordHashing),
{
    match password_hash {
        Some(password_hash) => Ok(
            NewUser {
                username: data.username.clone(),
                email: data.email.clone(),
                password_hash,
            },
        ),
        None => Err(ApiError::PasswordHashing),
    }
}

/// Builds the user row to insert for a registration request, hashing the
/// password with bcrypt at its default cost (12). The stored hash is a
/// 60-character `$2b$12$` bcrypt hash, so it differs from any password that is
/// not itself such a text.
pub fn register(data: &RegisterData) -> (r: Result<NewUser, ApiError>)
    ensures
        r matches Ok(user) ==> registered_as(*data, user),
        r matches Ok(user) ==> user.password_hash@.len() == 60 && vstd::utf8::is_ascii_chars(user.password_hash@),
        r matches Ok(user) ==> user.password_hash@.take(7) == bcrypt_default_prefix(),
        r matches Ok(user) ==> (!(data.password@.len() == 60 && data.password@.take(7) == bcrypt_default_prefix())
            ==> user.password_hash@ != data.password@),
        r matches Err(e) ==> e == ApiError::PasswordHashing,
{
    let hashed = bcrypt_hash(data.password.as_str());
    registration_row(data, hashed)
}

/// The answer to a registration once the insert was attempted: `Ok` means
/// 201 Created.
pub fn register_outcome(inserted: bool) -> (r: Result<(), ApiError>)
    ensures
        inserted ==> r is Ok,
        !inserted ==> r == Err::<(), ApiError>(ApiError::DatabaseInsertion),
{
    if inserted {
        Ok(())
    } else {
        Err(ApiError::DatabaseInsertion)
    }
}

/// What a login attempt decides, given the result of looking the user up by
/// name: the id to issue a token for, or the failure to answer with.
pub open spec fn spec_login(lookup: Result<Option<User>, ()>, password: Seq<char>) -> Result<i32, ApiError> {
    match lookup {
        Err(_) => Err(ApiError::Database),
        Ok(None) => Err(ApiError::Unauthorized),
        Ok(Some(user)) => match bcrypt_verify_result(password, user.password_hash@) {
            Ok(true) => Ok(user.id),
            Ok(false) => Err(ApiError::Unauthorized),
            Err(_) => Err(ApiError::Database),
        },
    }
}

/// The next step of a login.
#[derive(Debug, Clone)]
pub enum LoginStep {
    /// Issue a token whose subject is this text (the user id in decimal).
    IssueToken(String),
    /// Answer with this failure.
    Reject(ApiError),
}

/// What a login decides for the user `user_id` once bcrypt compared the
/// password with the stored hash: a token on a match, 401 on a mismatch, and a
/// database error when the stored hash could not be read.
pub fn password_check_outcome(user_id: i32, verdict: Result<bool, ()>) -> (r: LoginStep)
    ensures
        verdict matches Ok(true) ==> r matches LoginStep::IssueToken(subject) && subject@ == spec_decimal(user_id as int),
        verdict matches Ok(false) ==> r == LoginStep::Reject(ApiError::Unauthorized),
        verdict is Err ==> r == LoginStep::Reject(ApiError::Database),
{
    match verdict {
        Ok(true) => LoginStep::IssueToken(decimal_string(user_id)),
        Ok(false) => LoginStep::Reject(ApiError::Unauthorized),
        Err(()) => LoginStep::Reject(ApiError::Database),
    }
}

/// Decides a login from the user lookup (`Err` when the database failed) and
/// the password offered.
pub fn login(lookup: Result<Option<User>, ()>, password: &str) -> (r: LoginStep)
    ensures
        match spec_login(lookup, password@) {
            Ok(id) => r matches LoginStep::IssueToken(subject) && subject@ == spec_decimal(id as int),
            Err(e) => r == LoginStep::Reject(e),
        },
{
    match lookup {
        Err(()) => LoginStep::Reject(ApiError::Database),
        Ok(None) => LoginStep::Reject(ApiError::Unauthorized),
        Ok(Some(user)) => {
            let verdict = bcrypt_verify(password, user.password_hash.as_str());
            password_check_outcome(user.id, verdict)
        },
    }
}

/// The answer to a login once token issuance was attempted: the token to send
/// back under `"token"` with 200, or a database error.
pub fn login_token(token: Result<String, ()>) -> (r: Result<String, ApiError>)
    ensures
        token matches Ok(t) ==> r matches Ok(s) && s@ == t@,
        token is Err ==> r == Err::<String, ApiError>(ApiError::Database),
{
    match token {
        Ok(t) => Ok(t),
        Err(()) => Err(ApiError::Database),
    }
}

/// Registering and then logging in with the same password succeeds: if the
/// stored row carries the password hash that registration produced, the login
/// decides to issue a token for that row's id.
pub proof fn lemma_registered_user_can_log_in(data: RegisterData, new_user: NewUser, stored: User)
    requires
        registered_as(data, new_user),
        stored.username@ == new_user.username@,
        stored.password_hash@ == new_user.password_hash@,
    ensures
        spec_login(Ok(Some(stored)), data.password@) == Ok::<i32, ApiError>(stored.id),
{
}

/// How a login ends once the user was found, for every password and stored
/// hash: a token for that user's own id when bcrypt accepts the password, 401
/// when bcrypt rejects it, and 500 ("Database Error") when bcrypt cannot read
/// the stored hash. The outcome depends on nothing else of the password.
pub proof fn lemma_login_after_password_check(user: User, password: Seq<char>)
    ensures
        bcrypt_verify_result(password, user.password_hash@) == Ok::<bool, ()>(true)
            ==> spec_login(Ok(Some(user)), password) == Ok::<i32, ApiError>(user.id),
        bcrypt_verify_result(password, user.password_hash@) == Ok::<bool, ()>(false)
            ==> spec_login(Ok(Some(user)), password) == Err::<i32, ApiError>(ApiError::Unauthorized),
        bcrypt_verify_result(password, user.password_hash@) is Err
            ==> spec_login(Ok(Some(user)), password) == Err::<i32, ApiError>(ApiError::Database),
{
}

/// A login whose lookup found no user is answered 401, and one whose lookup
/// failed is answered 500, whatever the password.
pub proof fn lemma_login_without_user(password: Seq<char>)
    ensures
        spec_login(Ok(None), password) == Err::<i32, ApiError>(ApiError::Unauthorized),
        spec_login(Err(()), password) == Err::<i32, ApiError>(ApiError::Database),
{
}

/// A login never issues a token unless bcrypt accepted the password against
/// the stored hash of the user that was found.
pub proof fn lemma_token_only_for_verified_password(lookup: Result<Option<User>, ()>, password: Seq<char>)
    requires
        spec_login(lookup, password) is Ok,
    ensures
        lookup matches Ok(Some(user)) && bcrypt_verify_result(password, user.password_hash@) matches Ok(true)
            && spec_login(lookup, password) == Ok::<i32, ApiError>(user.id),
{
}

} // verus!
