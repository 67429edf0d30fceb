//! Password hashing and checking with bcrypt.

use vstd::prelude::*;
use crate::text::trimmed;

verus! {

#[verifier::external_type_specification]
#[verifier::external_body]
pub struct ExBcryptError(bcrypt::BcryptError);

/// What `bcrypt::verify(password, hash)` returns: `Some(b)` for `Ok(b)`,
/// `None` for an error (a malformed hash).
pub uninterp spec fn bcrypt_verify_outcome(password: Seq<char>, hash: Seq<char>) -> Option<bool>;

/// Calls `bcrypt::hash(password, bcrypt::DEFAULT_COST)`, which draws a random
/// salt. Claimed of an `Ok(h)`: `h` is the 60-character `$2b$12$...` string
/// that the crate formats, and `bcrypt::verify` of the same password against
/// it returns `Ok(true)` (same salt and cost give the same digest). The error
/// (a failure of the random source) is not predicted.
#[verifier::external_body]
fn bcrypt_hash(password: &str) -> (r: Result<String, bcrypt::BcryptError>)
    ensures
        r matches Ok(h) ==> {
            &&& h@.len() == 60
            &&& h@.take(7) == "$2b$12$"@
            &&& bcrypt_verify_outcome(password@, h@) == Some(true)
        },
{
    bcrypt::hash(password, bcrypt::DEFAULT_COST)
}

/// Calls `bcrypt::verify(password, hash)`. Claimed: the result is the named
/// outcome, and a hash that is not 60 characters long is refused with an
/// error (the crate checks for exactly 60 ASCII bytes first).
#[verifier::external_body]
fn bcrypt_verify(password: &str, hash: &str) -> (r: Result<bool, bcrypt::BcryptError>)
    ensures
        r is Ok <==> bcrypt_verify_outcome(password@, hash@) is Some,
        r matches Ok(b) ==> bcrypt_verify_outcome(password@, hash@) == Some(b),
        hash@.len() != 60 ==> r is Err,
{
    bcrypt::verify(password, hash)
}

/// Why a password could not be hashed or checked.
#[derive(PartialEq, Eq, Structural, Clone, Copy, Debug)]
pub enum PasswordError {
    /// Hashing failed (the random source for the salt failed).
    HashFailed,
    /// The stored hash is not a bcrypt hash.
    MalformedHash,
}

/// `stored` is what sign-up keeps for `password`: a bcrypt hash, made at the
/// default cost, of the password with surrounding white space removed.
pub open spec fn registered_hash(password: Seq<char>, stored: Seq<char>) -> bool {
    &&& stored.len() == 60
    &&& stored.take(7) == "$2b$12$"@
    &&& bcrypt_verify_outcome(trimmed(password), stored) == Some(true)
}

/// Whether sign-in accepts `password` for an account whose stored password
/// is `stored` (empty when the account is unknown); `None` when the stored
/// value is not a bcrypt hash.
pub open spec fn credentials_outcome(password: Seq<char>, stored: Seq<char>) -> Option<bool> {
    if stored.len() == 0 {
        Some(false)
    } else {
        bcrypt_verify_outcome(password, stored)
    }
}

/// Hashes `password` (already trimmed by the caller) for storage.
pub fn hash_password(password: &str) -> (r: Result<String, PasswordError>)
    ensures
        r matches Ok(h) ==> {
            &&& h@.len() == 60
            &&& h@.take(7) == "$2b$12$"@
            &&& bcrypt_verify_outcome(password@, h@) == Some(true)
        },
        r matches Err(e) ==> e == PasswordError::HashFailed,
{
    match bcrypt_hash(password) {
        Ok(h) => Ok(h),
        Err(_) => Err(PasswordError::HashFailed),
    }
}

/// Checks `password` against the stored value of an account: an empty stored
/// value (no such account) refuses it, anything else is checked as a bcrypt
/// hash.
pub fn check_password(password: &str, stored: &str) -> (r: Result<bool, PasswordError>)
    ensures
        match credentials_outcome(password@, stored@) {
            Some(b) => r == Ok::<bool, PasswordError>(b),
            None => r == Err::<bool, PasswordError>(PasswordError::MalformedHash),
        },
{
    if stored.is_empty() {
        return Ok(false);
    }
    match bcrypt_verify(password, stored) {
        Ok(b) => Ok(b),
        Err(_) => Err(PasswordError::MalformedHash),
    }
}

/// A password given at sign-up is accepted at sign-in with the account's
/// stored hash, as long as it has no leading or trailing white space
/// (sign-up hashes the trimmed password, sign-in checks it as typed).
pub proof fn registered_password_signs_in(password: Seq<char>, stored: Seq<char>)
    requires
        registered_hash(password, stored),
        trimmed(password) == password,
    ensures
        credentials_outcome(password, stored) == Some(true),
{
}

/// Sign-in refuses an unknown account (no stored password) and otherwise
/// leaves the answer to bcrypt alone: the outcome is what `bcrypt::verify`
/// gives for the typed password and the stored hash.
pub proof fn sign_in_is_decided_by_bcrypt(password: Seq<char>, stored: Seq<char>)
    ensures
        stored.len() == 0 ==> credentials_outcome(password, stored) == Some(false),
        stored.len() > 0 ==> credentials_outcome(password, stored) == bcrypt_verify_outcome(
            password,
            stored,
        ),
{
}

} // verus!
