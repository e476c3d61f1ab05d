//! The failures of the subsystem and how each is reported over HTTP.

use vstd::prelude::*;

verus! {

/// Why a session token was not accepted.
#[derive(Clone, Copy, Debug, PartialEq, Eq, Structural)]
pub enum SessionError {
    /// The token is not a well-formed, correctly signed session token.
    InvalidToken,
    /// The token was genuine but its lifetime has passed.
    ExpiredToken,
    /// The identity claim is missing or is not a user id.
    Malformed,
}

/// Every failure of the authentication subsystem.
#[derive(Clone, Copy, Debug, PartialEq, Eq, Structural)]
pub enum AuthError {
    /// No session token was presented, or its user no longer exists.
    Unauthenticated,
    /// A session token was presented and refused.
    Session(SessionError),
    /// The caller is authenticated but lacks the required role.
    Forbidden,
    /// No verification or reset token with that value exists.
    InvalidToken,
    /// The verification or reset token has expired.
    TokenExpired,
    /// No user matches the given email or id.
    UserNotFound,
    /// Another account already uses this email.
    DuplicateEmail,
    /// Login was attempted before the email was verified.
    AccountNotVerified,
    /// A password reset was requested for an unverified account.
    UserNotVerified,
    /// The password does not match the stored hash.
    InvalidPassword,
    /// The requested page lies outside the available pages.
    PageOutOfRange,
    /// An infrastructure failure (clock, randomness, hashing, storage).
    Internal,
}

/// The coarse classes that errors are reported under.
#[derive(Clone, Copy, Debug, PartialEq, Eq, Structural)]
pub enum ErrorKind {
    Unauthenticated,
    Forbidden,
    NotFound,
    BadRequest,
    Internal,
}

impl AuthError {
    pub open spec fn spec_kind(self) -> ErrorKind {
        match self {
            AuthError::Unauthenticated => ErrorKind::Unauthenticated,
            AuthError::Session(_) => ErrorKind::Unauthenticated,
            AuthError::Forbidden => ErrorKind::Forbidden,
            AuthError::InvalidToken => ErrorKind::NotFound,
            AuthError::UserNotFound => ErrorKind::NotFound,
            AuthError::TokenExpired => ErrorKind::BadRequest,
            AuthError::DuplicateEmail => ErrorKind::BadRequest,
            AuthError::AccountNotVerified => ErrorKind::BadRequest,
            AuthError::UserNotVerified => ErrorKind::BadRequest,
            AuthError::InvalidPassword => ErrorKind::BadRequest,
            AuthError::PageOutOfRange => ErrorKind::BadRequest,
            AuthError::Internal => ErrorKind::Internal,
        }
    }

    /// The class this error is reported under.
    pub fn kind(&self) -> (r: ErrorKind)
        ensures
            r == self.spec_kind(),
    {
        match self {
            AuthError::Unauthenticated => ErrorKind::Unauthenticated,
            AuthError::Session(_) => ErrorKind::Unauthenticated,
            AuthError::Forbidden => ErrorKind::Forbidden,
            AuthError::InvalidToken => ErrorKind::NotFound,
            AuthError::UserNotFound => ErrorKind::NotFound,
            AuthError::TokenExpired => ErrorKind::BadRequest,
            AuthError::DuplicateEmail => ErrorKind::BadRequest,
            AuthError::AccountNotVerified => ErrorKind::BadRequest,
            AuthError::UserNotVerified => ErrorKind::BadRequest,
            AuthError::InvalidPassword => ErrorKind::BadRequest,
            AuthError::PageOutOfRange => ErrorKind::BadRequest,
            AuthError::Internal => ErrorKind::Internal,
        }
    }

    /// The HTTP status code this error is answered with.
    pub fn status_code(&self) -> (r: u16)
        ensures
            r == self.spec_kind().spec_status_code(),
    {
        self.kind().status_code()
    }

    /// A message that is safe to show to the client.
    pub fn message(&self) -> String {
        match self {
            AuthError::Unauthenticated => String::from_str("Not authenticated!"),
            AuthError::Session(SessionError::InvalidToken) => String::from_str("Invalid session token."),
            AuthError::Session(SessionError::ExpiredToken) => String::from_str("Session has expired, please log in again."),
            AuthError::Session(SessionError::Malformed) => String::from_str("Malformed session token."),
            AuthError::Forbidden => String::from_str("Forbidden: Admin access required!"),
            AuthError::InvalidToken => String::from_str("Invalid token, try again."),
            AuthError::TokenExpired => String::from_str("Token has expired, please request a new one."),
            AuthError::UserNotFound => String::from_str("User not found."),
            AuthError::DuplicateEmail => String::from_str("Email already taken, try again with a different one."),
            AuthError::AccountNotVerified => String::from_str("Account not verified, check your email to verify."),
            AuthError::UserNotVerified => String::from_str("User is not verified."),
            AuthError::InvalidPassword => String::from_str("Invalid password, try again."),
            AuthError::PageOutOfRange => String::from_str("Page number out of range"),
            AuthError::Internal => String::from_str("Something went wrong, please try again."),
        }
    }
}

impl ErrorKind {
    pub open spec fn spec_status_code(self) -> u16 {
        match self {
            ErrorKind::Unauthenticated => 401,
            ErrorKind::Forbidden => 403,
            ErrorKind::NotFound => 404,
            ErrorKind::BadRequest => 400,
            ErrorKind::Internal => 500,
        }
    }

    /// The HTTP status code of this class.
    pub fn status_code(&self) -> (r: u16)
        ensures
            r == self.spec_status_code(),
    {
        match self {
            ErrorKind::Unauthenticated => 401,
            ErrorKind::Forbidden => 403,
            ErrorKind::NotFound => 404,
            ErrorKind::BadRequest => 400,
            ErrorKind::Internal => 500,
        }
    }
}

} // verus!
