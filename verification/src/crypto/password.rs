//! Argon2id password hashing.

use argon2::password_hash::phc::SaltString;
use argon2::{Argon2, PasswordHash, PasswordHasher, PasswordVerifier};
use vstd::prelude::*;

use crate::store::error::{ServiceError, ServiceErrorView};

verus! {

/// What [`argon2::PasswordHash::new`] and [`argon2::PasswordVerifier::verify_password`]
/// say of a password and a PHC string: whether they match, or the message of the first
/// if the text is no PHC string.
pub uninterp spec fn password_check(password: Seq<char>, hash: Seq<char>) -> Result<
    bool,
    Seq<char>,
>;

/// `argon2::PasswordHasher::hash_password_with_salt` with a random salt: a PHC string
/// that matches the password, or its error message.
#[verifier::external_body]
fn hash_with_salt(password: &str) -> (hash: Result<String, String>)
    ensures
        hash matches Ok(text) ==> password_check(password@, text@) is Ok && password_check(
            password@,
            text@,
        )->Ok_0,
{
    let salt = SaltString::generate();
    match Argon2::default().hash_password_with_salt(password.as_bytes(), salt.as_bytes()) {
        Ok(hash) => Ok(hash.to_string()),
        Err(error) => Err(error.to_string()),
    }
}

/// `argon2::PasswordHash::new` and `argon2::PasswordVerifier::verify_password`: whether a
/// password matches a PHC string, or the message of the first if the text is none.
#[verifier::external_body]
fn check_password(password: &str, hash: &str) -> (verdict: Result<bool, String>)
    ensures
        password_check(password@, hash@) == match verdict {
            Ok(same) => Ok(same),
            Err(text) => Err(text@),
        },
{
    let parsed = PasswordHash::new(hash).map_err(|e| e.to_string())?;
    Ok(Argon2::default().verify_password(password.as_bytes(), &parsed).is_ok())
}

/// Hash a password with Argon2id and a fresh random salt.
///
/// The returned value is a PHC string (`$argon2id$v=19$m=...,t=...,p=...$...`)
/// that embeds the salt and parameters.
pub fn hash_password(password: &str) -> (result: Result<String, ServiceError>)
    ensures
        match result {
            Ok(hash) => password_verdict(password@, hash@) == Ok::<bool, ServiceErrorView>(true),
            Err(error) => error is Internal,
        },
{
    match hash_with_salt(password) {
        Ok(hash) => Ok(hash),
        Err(text) => Err(ServiceError::Internal(text)),
    }
}

/// The outcome of verifying a password.
pub open spec fn password_verdict(password: Seq<char>, hash: Seq<char>) -> Result<
    bool,
    ServiceErrorView,
> {
    match password_check(password, hash) {
        Ok(same) => Ok(same),
        Err(text) => Err(ServiceErrorView::Internal(text)),
    }
}

/// Verify a password against a PHC string, in constant time.
pub fn verify_password(password: &str, hash: &str) -> (result: Result<bool, ServiceError>)
    ensures
        password_verdict(password@, hash@) == match result {
            Ok(same) => Ok(same),
            Err(error) => Err(error@),
        },
{
    match check_password(password, hash) {
        Ok(same) => Ok(same),
        Err(text) => Err(ServiceError::Internal(text)),
    }
}

} // verus!
