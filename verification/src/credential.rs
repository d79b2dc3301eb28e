//! Password hashing and verification.
//!
//! A password is stored as an Argon2 hash in PHC text form, which holds the
//! parameters, the salt and the digest.  Each call to [`hash_password`] draws
//! a salt of its own.  Verification fails closed: a stored text that cannot be
//! read as such a hash verifies nothing.

use vstd::prelude::*;
use crate::response::ApiError;
use argon2::PasswordHasher;
use argon2::PasswordVerifier;

verus! {

/// `password_hash::Error`, the reason Argon2 gives for a failure.
#[verifier::external_type_specification]
#[verifier::external_body]
pub struct ExPasswordHashError(argon2::password_hash::Error);

/// The PHC text Argon2, with its default parameters, derives from a password
/// and a salt in B64 text; `None` where it derives none.
pub uninterp spec fn argon2_phc(password: Seq<char>, salt: Seq<char>) -> Option<Seq<char>>;

/// Whether Argon2 finds that the stored PHC text is a hash of the password.
pub uninterp spec fn argon2_accepts(password: Seq<char>, stored: Seq<char>) -> bool;

/// `SaltString::generate` on the operating system's random source: a salt in
/// B64 text.  Nothing is promised of which.
#[verifier::external_body]
pub(crate) fn fresh_salt() -> (salt: String) {
    argon2::password_hash::SaltString::generate(&mut argon2::password_hash::rand_core::OsRng)
        .as_str().to_owned()
}

/// `Argon2::default().hash_password` on the bytes of the password, the salt
/// read by `SaltString::from_b64`, the hash printed as PHC text.  The text is
/// a function of password and salt; a salt that cannot be read, or a failure
/// of the hash, is the error.
#[verifier::external_body]
pub(crate) fn argon2_hash(password: &str, salt: &str) -> (r: Result<
    String,
    argon2::password_hash::Error,
>)
    ensures
        match r {
            Ok(text) => argon2_phc(password@, salt@) == Some(text@),
            Err(_) => argon2_phc(password@, salt@) is None,
        },
{
    let salt = argon2::password_hash::SaltString::from_b64(salt)?;
    let hash = argon2::Argon2::default().hash_password(password.as_bytes(), &salt)?;
    Ok(hash.to_string())
}

/// `Argon2::default().verify_password` on the bytes of the password and the
/// stored text read by `PasswordHash::new`.  It is `Ok` exactly if the text
/// can be read and the recomputed digest is the stored one.
#[verifier::external_body]
pub(crate) fn argon2_check(password: &str, stored: &str) -> (r: Result<
    (),
    argon2::password_hash::Error,
>)
    ensures
        r is Ok <==> argon2_accepts(password@, stored@),
{
    let parsed = argon2::password_hash::PasswordHash::new(stored)?;
    argon2::Argon2::default().verify_password(password.as_bytes(), &parsed)
}

/// What a hashing attempt means to the caller: the PHC text, or an internal
/// error that says nothing of the cause.
pub open spec fn spec_hashed(phc: Option<Seq<char>>, r: Result<String, ApiError>) -> bool {
    match phc {
        Some(text) => r matches Ok(s) && s@ == text,
        None => r matches Err(e) && e is InternalServerError,
    }
}

/// Turns the outcome of a hashing attempt into the caller's terms.
pub fn hashed_or_internal(outcome: Result<String, argon2::password_hash::Error>) -> (r: Result<
    String,
    ApiError,
>)
    ensures
        match outcome {
            Ok(text) => r == Ok::<String, ApiError>(text),
            Err(_) => r matches Err(e) && e is InternalServerError,
        },
{
    match outcome {
        Ok(text) => Ok(text),
        Err(_) => Err(ApiError::InternalServerError),
    }
}

/// Whether the outcome of a check verifies the password.  Every failure,
/// whatever its reason, verifies nothing.
pub fn accepted(outcome: &Result<(), argon2::password_hash::Error>) -> (ok: bool)
    ensures
        ok == (outcome is Ok),
{
    match outcome {
        Ok(()) => true,
        Err(_) => false,
    }
}

/// Hashes a password with the salt given.
pub fn hash_with_salt(password: &str, salt: &str) -> (r: Result<String, ApiError>)
    ensures
        spec_hashed(argon2_phc(password@, salt@), r),
{
    hashed_or_internal(argon2_hash(password, salt))
}

/// Hashes a password with a salt drawn for this call.
pub fn hash_password(password: &str) -> (r: Result<String, ApiError>)
    ensures
        exists|salt: Seq<char>| spec_hashed(#[trigger] argon2_phc(password@, salt), r),
{
    let salt = fresh_salt();
    let r = hash_with_salt(password, salt.as_str());
    assert(spec_hashed(argon2_phc(password@, salt@), r));
    r
}

/// Whether the stored PHC text is a hash of the password.  A stored text that
/// is no PHC text verifies nothing, as a wrong password does.
pub fn verify_password(password: &str, stored: &str) -> (ok: bool)
    ensures
        ok == argon2_accepts(password@, stored@),
{
    accepted(&argon2_check(password, stored))
}

} // verus!
