//! The failure vocabulary of the authentication core.
//!
//! Every operation surfaces one of these kinds unmodified; nothing is locally
//! retried. Transports are expected to map each kind to a uniform rejection
//! so that the outward signal never confirms which check failed.

use vstd::prelude::*;

verus! {

/// Why an authentication or authorization operation was refused.
#[derive(Debug, Clone, Copy, PartialEq, Eq, Structural)]
pub enum AuthError {
    /// The user id is absent or the row is soft-deleted.
    NotFound,
    /// The user lacks the role the audience requires.
    RoleMismatch,
    /// The password does not reproduce the stored hash.
    InvalidCredentials,
    /// The token's expiry is not in the future.
    TokenExpired,
    /// The token's signature does not match the audience secret.
    TokenInvalidSignature,
    /// The token cannot be decoded at all.
    TokenMalformed,
    /// No token was carried where one was required.
    MissingToken,
    /// A required secret was not provisioned.
    ConfigurationError,
    /// The storage collaborator failed; opaque to this core.
    RepositoryError,
    /// The hashing scheme failed or the stored hash is malformed.
    HashingError,
}

/// The diagnostic text of each failure kind.
pub open spec fn spec_error_text(e: AuthError) -> Seq<char> {
    match e {
        AuthError::NotFound => "user not found"@,
        AuthError::RoleMismatch => "user does not hold the required role"@,
        AuthError::InvalidCredentials => "invalid password"@,
        AuthError::TokenExpired => "token expired"@,
        AuthError::TokenInvalidSignature => "token signature invalid"@,
        AuthError::TokenMalformed => "token malformed"@,
        AuthError::MissingToken => "token not found"@,
        AuthError::ConfigurationError => "secret not provisioned"@,
        AuthError::RepositoryError => "repository failure"@,
        AuthError::HashingError => "password hashing failure"@,
    }
}

impl AuthError {
    /// A diagnostic text for logs. Outward responses should not use it:
    /// confirming which check failed would allow account enumeration.
    pub fn text(&self) -> (res: &'static str)
        ensures
            res@ == spec_error_text(*self),
    {
        match self {
            AuthError::NotFound => "user not found",
            AuthError::RoleMismatch => "user does not hold the required role",
            AuthError::InvalidCredentials => "invalid password",
            AuthError::TokenExpired => "token expired",
            AuthError::TokenInvalidSignature => "token signature invalid",
            AuthError::TokenMalformed => "token malformed",
            AuthError::MissingToken => "token not found",
            AuthError::ConfigurationError => "secret not provisioned",
            AuthError::RepositoryError => "repository failure",
            AuthError::HashingError => "password hashing failure",
        }
    }

    /// The single outward signal for every authentication failure.
    pub fn outward_text(&self) -> (res: &'static str)
        ensures
            res@ == "authentication failed"@,
    {
        "authentication failed"
    }
}

} // verus!
