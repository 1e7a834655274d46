//! The error taxonomy of the administrative API and its mapping to HTTP
//! status codes and machine-readable reason strings.

use vstd::prelude::*;

verus! {

/// Failures of the authentication layer.  Every one of them answers 401.
#[derive(Clone, Copy, Debug, PartialEq, Eq, Structural)]
pub enum AuthError {
    /// No bearer token was presented on a protected route.
    MissingToken,
    /// A token was presented but resolves to no session.
    InvalidToken,
    /// Username unknown or password hash mismatch on login.
    InvalidCredentials,
}

/// Failures of the stores themselves.
#[derive(Clone, Copy, Debug, PartialEq, Eq, Structural)]
pub enum StoreError {
    /// A freshly drawn token collided with a stored one; the store rejects
    /// the insert rather than overwrite.
    DuplicateToken,
    /// A freshly drawn row id collided with a stored one; likewise
    /// rejected.
    DuplicateId,
}

/// Failures of the login flow.
#[derive(Clone, Copy, Debug, PartialEq, Eq, Structural)]
pub enum LoginError {
    /// Username unknown or password hash mismatch.
    Credentials,
    /// The freshly drawn token collided in the session store.
    TokenCollision,
}

impl LoginError {
    pub fn reason(&self) -> (r: &'static str)
        ensures
            *self == LoginError::Credentials ==> r@ == "invalid_credentials"@,
            *self == LoginError::TokenCollision ==> r@ == "db_error"@,
    {
        match self {
            LoginError::Credentials => "invalid_credentials",
            LoginError::TokenCollision => "db_error",
        }
    }

    /// A credential failure answers 401; a store failure answers 500.
    pub fn status_code(&self) -> (r: u16)
        ensures
            *self == LoginError::Credentials ==> r == 401,
            *self == LoginError::TokenCollision ==> r == 500,
    {
        match self {
            LoginError::Credentials => 401,
            LoginError::TokenCollision => 500,
        }
    }
}

/// Lookup by an id that no row carries.
#[derive(Clone, Copy, Debug, PartialEq, Eq, Structural)]
pub enum CatalogError {
    NotFound,
}

impl AuthError {
    /// The short machine-readable reason placed in the JSON error envelope.
    pub fn reason(&self) -> (r: &'static str)
        ensures
            *self == AuthError::MissingToken ==> r@ == "missing_token"@,
            *self == AuthError::InvalidToken ==> r@ == "invalid_token"@,
            *self == AuthError::InvalidCredentials ==> r@ == "invalid_credentials"@,
    {
        match self {
            AuthError::MissingToken => "missing_token",
            AuthError::InvalidToken => "invalid_token",
            AuthError::InvalidCredentials => "invalid_credentials",
        }
    }

    /// Every authentication failure is answered with 401 Unauthorized.
    pub fn status_code(&self) -> (r: u16)
        ensures
            r == 401,
    {
        401
    }
}

impl CatalogError {
    pub fn status_code(&self) -> (r: u16)
        ensures
            r == 404,
    {
        404
    }
}

} // verus!
