//! Passwords: argon2 hashes for new accounts and the login check.
use argon2::password_hash::{PasswordHash, PasswordHasher, PasswordVerifier, SaltString};
use crate::error::{AppError, AppErrorView};
use vstd::prelude::*;

verus! {

/// What checking `password` against the stored PHC string `hash` gives:
/// `None` when the string does not parse as a password hash, otherwise
/// whether the password matches it.
pub uninterp spec fn password_check(password: Seq<char>, hash: Seq<char>) -> Option<bool>;

/// Relies on `password_hash::PasswordHash::new` to parse the stored hash
/// and on `argon2::Argon2`'s `PasswordVerifier::verify_password`; the
/// outcome depends on the two texts alone.
#[verifier::external_body]
fn verify_password(password: &str, hash: &str) -> (r: Option<bool>)
    ensures
        r == password_check(password@, hash@),
{
    match PasswordHash::new(hash) {
        Ok(parsed) => Some(argon2::Argon2::default().verify_password(password.as_bytes(), &parsed).is_ok()),
        Err(_) => None,
    }
}

/// Relies on `password_hash::SaltString::generate` with the operating
/// system's generator and `argon2::Argon2`'s `PasswordHasher::hash_password`:
/// the PHC string of the hash, or `None` when hashing fails. The salt is
/// random, so nothing is promised of the text.
#[verifier::external_body]
fn hash_password(password: &str) -> (r: Option<String>) {
    let salt = SaltString::generate(&mut password_hash::rand_core::OsRng);
    argon2::Argon2::default().hash_password(password.as_bytes(), &salt).ok().map(|h| h.to_string())
}

/// The message for a failed login; it does not tell which part was wrong.
pub open spec fn invalid_login_message() -> Seq<char> {
    "Invalid email or password"@
}

/// The login decision for the outcome of a password check: a stored hash
/// that does not parse is an internal error, a mismatch a bad request.
pub fn login_decision(check: Option<bool>) -> (r: Result<(), AppError>)
    ensures
        check == Some(true) ==> r is Ok,
        check == Some(false) ==> r is Err && r->Err_0@ == AppErrorView::BadRequest(
            invalid_login_message(),
        ),
        check is None ==> r is Err && r->Err_0@ == AppErrorView::Internal,
{
    match check {
        Some(true) => Ok(()),
        Some(false) => Err(AppError::bad_request("Invalid email or password")),
        None => Err(AppError::Internal),
    }
}

/// Checks a login password against the stored hash.
pub fn authenticate(password: &str, stored_hash: &str) -> (r: Result<(), AppError>)
    ensures
        password_check(password@, stored_hash@) == Some(true) ==> r is Ok,
        password_check(password@, stored_hash@) == Some(false) ==> r is Err && r->Err_0@
            == AppErrorView::BadRequest(invalid_login_message()),
        password_check(password@, stored_hash@) is None ==> r is Err && r->Err_0@
            == AppErrorView::Internal,
{
    login_decision(verify_password(password, stored_hash))
}

/// The stored form of a new password; a failure of the hasher is an
/// internal error.
pub fn new_password_hash(password: &str) -> (r: Result<String, AppError>)
    ensures
        r is Err ==> r->Err_0@ == AppErrorView::Internal,
{
    match hash_password(password) {
        Some(h) => Ok(h),
        None => Err(AppError::Internal),
    }
}

} // verus!
