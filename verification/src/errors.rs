//! The authentication and authorization error taxonomy.
//!
//! The split is deliberate and load-bearing: "unauthenticated" must only ever
//! mean that no valid identity was presented, while "forbidden" must only ever
//! mean that a valid identity lacks privilege. A missing subject is reported
//! as unauthenticated, never as "not found", so that probing a token cannot
//! confirm or deny that an identity exists.

use vstd::prelude::*;

verus! {

/// Errors raised while establishing or checking a request identity.
#[derive(Clone, Copy, Debug, PartialEq, Eq, Structural)]
pub enum AuthError {
    /// No `Authorization` header, or one without a recognized bearer scheme.
    MissingToken,
    /// Bad signature, malformed claims, unparseable subject, or an expired
    /// token. Deliberately not distinguished further, so that a probe learns
    /// nothing about why a token was rejected.
    InvalidToken,
    /// The token verified but its subject no longer resolves to an identity.
    UnknownSubject,
    /// A valid identity whose role is below the required level, or whose
    /// ownership check failed.
    InsufficientPrivilege,
}

/// How an error surfaces at the transport boundary.
#[derive(Clone, Copy, Debug, PartialEq, Eq, Structural)]
pub enum ErrorClass {
    /// No valid identity: the client should run the authentication flow.
    Unauthenticated,
    /// Valid identity, insufficient privilege: retrying authentication is useless.
    Forbidden,
}

impl ErrorClass {
    /// The transport status code this class surfaces as.
    pub fn status_code(&self) -> (c: u16)
        ensures
            *self == ErrorClass::Unauthenticated ==> c == 401,
            *self == ErrorClass::Forbidden ==> c == 403,
    {
        match self {
            ErrorClass::Unauthenticated => 401,
            ErrorClass::Forbidden => 403,
        }
    }
}

/// The surfacing class of each error.
pub open spec fn spec_error_class(e: AuthError) -> ErrorClass {
    match e {
        AuthError::MissingToken => ErrorClass::Unauthenticated,
        AuthError::InvalidToken => ErrorClass::Unauthenticated,
        AuthError::UnknownSubject => ErrorClass::Unauthenticated,
        AuthError::InsufficientPrivilege => ErrorClass::Forbidden,
    }
}

impl AuthError {
    /// The class under which this error is surfaced to clients. Every failure
    /// to establish an identity, a missing subject included, surfaces as
    /// unauthenticated.
    pub fn class(&self) -> (c: ErrorClass)
        ensures
            c == spec_error_class(*self),
    {
        match self {
            AuthError::MissingToken => ErrorClass::Unauthenticated,
            AuthError::InvalidToken => ErrorClass::Unauthenticated,
            AuthError::UnknownSubject => ErrorClass::Unauthenticated,
            AuthError::InsufficientPrivilege => ErrorClass::Forbidden,
        }
    }

    /// True exactly when the error means "no valid identity".
    pub fn is_unauthenticated(&self) -> (r: bool)
        ensures
            r == (spec_error_class(*self) == ErrorClass::Unauthenticated),
    {
        matches!(self.class(), ErrorClass::Unauthenticated)
    }

    /// The machine-readable code under which this error is reported, which
    /// never distinguishes the unauthenticated causes from one another.
    pub fn error_code(&self) -> (c: &'static str)
        ensures
            spec_error_class(*self) == ErrorClass::Unauthenticated ==> c@ == "UNAUTHORIZED"@,
            spec_error_class(*self) == ErrorClass::Forbidden ==> c@ == "FORBIDDEN"@,
    {
        match self.class() {
            ErrorClass::Unauthenticated => "UNAUTHORIZED",
            ErrorClass::Forbidden => "FORBIDDEN",
        }
    }

    /// The client-facing message for this error.
    pub fn message(&self) -> (m: &'static str)
        ensures
            *self == AuthError::MissingToken ==> m@ == "Missing authentication token"@,
            *self == AuthError::InvalidToken ==> m@ == "Invalid or expired token"@,
            *self == AuthError::UnknownSubject ==> m@ == "User not found"@,
            *self == AuthError::InsufficientPrivilege ==> m@
                == "Forbidden - insufficient permissions"@,
    {
        match self {
            AuthError::MissingToken => "Missing authentication token",
            AuthError::InvalidToken => "Invalid or expired token",
            AuthError::UnknownSubject => "User not found",
            AuthError::InsufficientPrivilege => "Forbidden - insufficient permissions",
        }
    }
}

} // verus!
