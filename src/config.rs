//! Settings of the subsystem and the arithmetic of token lifetimes.

use vstd::prelude::*;

verus! {

/// Lifetime of a session token, in seconds.
pub const SESSION_TTL_SECS: i64 = 86400;

/// Lifetime of an email-verification token, in seconds.
pub const VERIFICATION_TTL_SECS: i64 = 86400;

/// Lifetime of a password-reset token, in seconds.
pub const RESET_TTL_SECS: i64 = 3600;

/// The bcrypt cost used unless another is configured.
pub const DEFAULT_HASH_COST: u32 = 12;

/// Process-wide settings of the subsystem, loaded once at start-up and
/// handed by reference to everything that needs them.
pub struct AuthConfig {
    /// Key that session tokens are signed with.
    pub secret: Vec<u8>,
    /// Seconds a session token stays valid.
    pub session_ttl: i64,
    /// Seconds an email-verification token stays valid.
    pub verification_ttl: i64,
    /// Seconds a password-reset token stays valid.
    pub reset_ttl: i64,
    /// bcrypt cost for new password hashes.
    pub hash_cost: u32,
    /// Base URL that password-reset links point under.
    pub base_url: String,
}

impl AuthConfig {
    /// Every lifetime is positive.
    pub open spec fn wf(&self) -> bool {
        &&& self.session_ttl > 0
        &&& self.verification_ttl > 0
        &&& self.reset_ttl > 0
    }

    /// Settings with the standard lifetimes (a day for sessions and email
    /// verification, an hour for password reset) and the default cost.
    pub fn new(secret: Vec<u8>, base_url: String) -> (r: AuthConfig)
        ensures
            r.wf(),
            r.secret@ == secret@,
            r.base_url@ == base_url@,
            r.session_ttl == SESSION_TTL_SECS,
            r.verification_ttl == VERIFICATION_TTL_SECS,
            r.reset_ttl == RESET_TTL_SECS,
            r.hash_cost == DEFAULT_HASH_COST,
    {
        AuthConfig {
            secret,
            session_ttl: SESSION_TTL_SECS,
            verification_ttl: VERIFICATION_TTL_SECS,
            reset_ttl: RESET_TTL_SECS,
            hash_cost: DEFAULT_HASH_COST,
            base_url,
        }
    }
}

/// `now + ttl`, or `None` where the sum leaves the range of `i64`.
pub fn expiry_after(now: i64, ttl: i64) -> (r: Option<i64>)
    requires
        ttl > 0,
    ensures
        now + ttl <= i64::MAX ==> r == Some((now + ttl) as i64),
        now + ttl > i64::MAX ==> r is None,
{
    if now > i64::MAX - ttl {
        None
    } else {
        Some(now + ttl)
    }
}

/// A token that expires at `expires_at` is no longer accepted at `now`.
pub open spec fn is_expired(expires_at: i64, now: i64) -> bool {
    now > expires_at
}

} // verus!
