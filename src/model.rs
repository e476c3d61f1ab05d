//! Accounts, stored tokens, request bodies and the values the flows hand back.

use vstd::prelude::*;

verus! {

/// What an account may do.
#[derive(Clone, Copy, Debug, PartialEq, Eq, Structural)]
pub enum Role {
    Admin,
    User,
}

/// An account.
pub struct User {
    /// Stable numeric id, the key of the store.
    pub id: i32,
    /// Public-facing unique identifier (a UUID in text form).
    pub uuid: String,
    pub role: Role,
    pub full_name: String,
    /// Unique over all accounts.
    pub email: String,
    pub password_hash: String,
    /// Set once the owner proved control of the email address.
    pub is_verified: bool,
    pub profile_pic: Option<String>,
    pub github_link: Option<String>,
    pub linkdin_link: Option<String>,
}

/// A copy of an optional string.
pub fn copy_opt_string(s: &Option<String>) -> (r: Option<String>)
    ensures
        r == *s,
{
    match s {
        Some(v) => Some(v.clone()),
        None => None,
    }
}

impl User {
    /// A field-for-field copy of this account.
    pub fn duplicate(&self) -> (r: User)
        ensures
            r == *self,
    {
        User {
            id: self.id,
            uuid: self.uuid.clone(),
            role: self.role,
            full_name: self.full_name.clone(),
            email: self.email.clone(),
            password_hash: self.password_hash.clone(),
            is_verified: self.is_verified,
            profile_pic: copy_opt_string(&self.profile_pic),
            github_link: copy_opt_string(&self.github_link),
            linkdin_link: copy_opt_string(&self.linkdin_link),
        }
    }
}

/// A single-purpose token stored for a user: its value, its owner and the
/// instant (seconds since the epoch) after which it is refused.
pub struct TokenRecord {
    pub token: String,
    pub user_id: i32,
    pub expires_at: i64,
}

/// Body of a sign-up request; login reads its email and password.
pub struct UserRegistationData {
    pub full_name: String,
    pub email: String,
    pub password: String,
}

/// Query of an email-verification request.
pub struct VerifyToken {
    pub token: String,
}

/// Body of a forgotten-password request.
pub struct ForgetPasswordData {
    pub email: String,
}

/// Body of a password-reset request.
pub struct ResetPasswordRequest {
    pub token: String,
    pub new_password: String,
}

/// A partial update of an account: each field given replaces the stored one.
pub struct UpdateUser {
    pub fullname: Option<String>,
    pub email_id: Option<String>,
    pub profile_pic: Option<String>,
    pub github_link: Option<String>,
    pub linkdin_link: Option<String>,
    pub is_verdified: Option<bool>,
}

/// What the orchestration asks the mail sender to deliver.
pub enum Mail {
    /// A link that proves control of the address, carrying `token`.
    Verification { to: String, full_name: String, token: String },
    /// Greeting after a successful verification.
    Welcome { to: String, full_name: String },
    /// A link to the password-reset page.
    PasswordReset { to: String, full_name: String, link: String },
}

/// The public profile and session token returned by a successful login.
pub struct LoginResponse {
    pub full_name: String,
    pub email: String,
    pub token: String,
}

/// What a successful email verification did.
pub enum VerifyOutcome {
    /// The account is now verified; the welcome mail is to be sent.
    Verified(Mail),
    /// The account was verified before; nothing changed.
    AlreadyVerified,
}

/// The account on whose behalf a request runs, resolved by the middleware
/// and handed on to the handler.
pub struct AuthContext {
    pub user: User,
}

} // verus!
