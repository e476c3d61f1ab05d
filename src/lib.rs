//! Authentication and authorization core of a storefront backend: password
//! hashing, session tokens, single-purpose verification tokens, the account
//! flows built on them, and the role check applied to protected routes.
//!
//! Every flow comes in two forms. The `_at` / `_with` form takes the time,
//! the fresh tokens and the password hash as arguments and its result is
//! pinned down by a postcondition in `service`; the plain form reads the
//! clock, draws the tokens and hashes, then runs the first.
//!
//! Token policy: an email-verification token stays usable until it expires,
//! so verifying twice is harmless and answers "already verified"; a
//! password-reset token is removed when it is used, so it cannot be
//! replayed. Sign-up keeps the new account even where the verification mail
//! then fails to go out; a later login attempt sends a fresh token.

pub mod config;
pub mod error;
pub mod model;

pub mod password;
pub mod session;
pub mod sources;

pub mod ledger;
pub mod store;

pub mod middleware;
pub mod pagination;
pub mod service;

pub mod laws;
