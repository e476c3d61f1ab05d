//! Password hashing and checking, on bcrypt.

use vstd::prelude::*;

use crate::error::AuthError;

verus! {

/// Whether bcrypt accepts `password` against the stored `hash` (a hash that
/// bcrypt cannot parse accepts nothing).
pub uninterp spec fn password_matches(password: Seq<char>, hash: Seq<char>) -> bool;

/// Relies on bcrypt::hash: a salted hash of the password at the given cost,
/// which bcrypt::verify accepts for the same password; a cost outside 4..=31
/// is refused.
#[verifier::external_body]
fn bcrypt_hash(password: &str, cost: u32) -> (r: Option<String>)
    ensures
        r matches Some(h) ==> password_matches(password@, h@),
        cost < 4 || cost > 31 ==> r is None,
{
    bcrypt::hash(password, cost).ok()
}

/// Relies on bcrypt::verify: whether the password matches the hash, with an
/// unparsable hash taken as no match.
#[verifier::external_body]
fn bcrypt_verify(password: &str, hash: &str) -> (r: bool)
    ensures
        r == password_matches(password@, hash@),
{
    bcrypt::verify(password, hash).unwrap_or(false)
}

/// Hashes a password for storage. The result is salted afresh on every call;
/// whatever it is, it verifies against the same password.
pub fn hash_password(password: &str, cost: u32) -> (r: Result<String, AuthError>)
    ensures
        r matches Ok(h) ==> password_matches(password@, h@),
        r is Err ==> r == Err::<String, AuthError>(AuthError::Internal),
        cost < 4 || cost > 31 ==> r is Err,
{
    match bcrypt_hash(password, cost) {
        Some(h) => Ok(h),
        None => Err(AuthError::Internal),
    }
}

/// Checks a password against a stored hash; a mismatch is `false`, never an
/// error.
pub fn verify_password(password: &str, hash: &str) -> (r: bool)
    ensures
        r == password_matches(password@, hash@),
{
    bcrypt_verify(password, hash)
}

} // verus!
