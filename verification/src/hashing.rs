//! Credential hashing and verification.
//!
//! A plaintext secret is turned into a stored hash by a one-way scheme with
//! an embedded random salt, and later verified against it. Whether a
//! plaintext reproduces a stored hash is a deterministic relation between
//! the two, named here by [`password_check`]; only the hashing crate can
//! evaluate it.

use vstd::prelude::*;

use crate::errors::AuthError;

verus! {

/// What checking a plaintext against a stored hash decides: `Some(true)` if
/// the plaintext reproduces the hash, `Some(false)` if not, `None` when the
/// stored hash is not a well-formed hash string. A function of the two
/// arguments alone: the salt and parameters are embedded in the hash.
pub uninterp spec fn password_check(hash: Seq<char>, password: Seq<char>) -> Option<bool>;

/// Relies on `Argon2::verify_password` and `PasswordHash::new` of the argon2
/// and password-hash crates: parsing the stored hash and re-deriving the key
/// from the embedded salt and parameters is deterministic in hash and
/// password, and the comparison is constant-time.
#[verifier::external_body]
pub fn verify_password(password: &str, hash: &str) -> (res: Option<bool>)
    ensures
        res == password_check(hash@, password@),
{
    match argon2::password_hash::PasswordHash::new(hash) {
        Err(_) => None,
        Ok(parsed) => {
            match argon2::PasswordVerifier::verify_password(
                &argon2::Argon2::default(),
                password.as_bytes(),
                &parsed,
            ) {
                Ok(()) => Some(true),
                Err(argon2::password_hash::Error::Password) => Some(false),
                Err(_) => None,
            }
        },
    }
}

/// Relies on `Argon2::hash_password` of the argon2 crate: the produced hash
/// string embeds its salt and parameters and verifies the password it was
/// derived from. Fails only when the system's random source or the scheme
/// itself fails.
#[verifier::external_body]
pub fn hash_password(password: &str) -> (res: Result<String, AuthError>)
    ensures
        res matches Ok(h) ==> password_check(h@, password@) == Some(true),
{
    let salt = argon2::password_hash::SaltString::generate(&mut rand_core::OsRng);
    match argon2::PasswordHasher::hash_password(
        &argon2::Argon2::default(),
        password.as_bytes(),
        &salt,
    ) {
        Ok(hash) => Ok(hash.to_string()),
        Err(_) => Err(AuthError::HashingError),
    }
}

} // verus!
