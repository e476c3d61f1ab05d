//! Resolution of a request's session token to its account, and the
//! administrator check of reserved routes.

use vstd::prelude::*;

use crate::error::{AuthError, SessionError};
use crate::model::{AuthContext, Role, User};
use crate::service::{lemma_owners_same_ids, AuthService};
use crate::session::{hs256_signed, minted_outcome, session_token_of, validate_token};
use crate::sources::now_secs;
use crate::store::{find_id, with_role};

verus! {

/// The account a request resolves to, given the outcome of its session-token
/// check: a refused token is reported as such, and an id with no account
/// behind it (deleted since) is unauthenticated.
pub open spec fn session_outcome(s: AuthService, validated: Result<i32, SessionError>) -> Result<User, AuthError> {
    match validated {
        Err(e) => Err(AuthError::Session(e)),
        Ok(id) => match find_id(s.users.users@, id) {
            None => Err(AuthError::Unauthenticated),
            Some(j) => Ok(s.users.users@[j]),
        },
    }
}

/// As `session_outcome`, where the account must also be an administrator.
pub open spec fn admin_outcome(s: AuthService, validated: Result<i32, SessionError>) -> Result<User, AuthError> {
    match session_outcome(s, validated) {
        Ok(u) => if u.role == Role::Admin {
            Ok(u)
        } else {
            Err(AuthError::Forbidden)
        },
        Err(e) => Err(e),
    }
}

/// The account a middleware result hands on, or its refusal.
pub open spec fn ctx_user(r: Result<AuthContext, AuthError>) -> Result<User, AuthError> {
    match r {
        Ok(ctx) => Ok(ctx.user),
        Err(e) => Err(e),
    }
}

/// Authentication of a request whose session-token header is `header`, at
/// time `now`. Without a header it is unauthenticated; a token minted for an
/// account resolves by its id and expiry; a token without a valid signature
/// under the secret is refused; any other token resolves through some outcome
/// of the token check.
pub open spec fn authenticate_post(s: AuthService, header: Option<&str>, now: i64, r: Result<AuthContext, AuthError>) -> bool {
    match header {
        None => r == Err::<AuthContext, AuthError>(AuthError::Unauthenticated),
        Some(t) => {
            &&& forall|id: i32, exp: i64|
                #[trigger] session_token_of(id, exp, s.config.secret@) == t@ ==> ctx_user(r) == session_outcome(
                    s,
                    minted_outcome(id, exp, now),
                )
            &&& !hs256_signed(t@, s.config.secret@) ==> (r matches Err(AuthError::Session(_)))
            &&& exists|v: Result<i32, SessionError>| ctx_user(r) == #[trigger] session_outcome(s, v)
        },
    }
}

/// As `authenticate_post`, for a route reserved to administrators.
pub open spec fn admin_post(s: AuthService, header: Option<&str>, now: i64, r: Result<AuthContext, AuthError>) -> bool {
    match header {
        None => r == Err::<AuthContext, AuthError>(AuthError::Unauthenticated),
        Some(t) => {
            &&& forall|id: i32, exp: i64|
                #[trigger] session_token_of(id, exp, s.config.secret@) == t@ ==> ctx_user(r) == admin_outcome(
                    s,
                    minted_outcome(id, exp, now),
                )
            &&& !hs256_signed(t@, s.config.secret@) ==> (r matches Err(AuthError::Session(_)))
            &&& exists|v: Result<i32, SessionError>| ctx_user(r) == #[trigger] admin_outcome(s, v)
        },
    }
}

impl AuthService {
    /// Resolves the outcome of a session-token check to the account the
    /// request runs for.
    pub fn resolve_session(&self, validated: Result<i32, SessionError>) -> (r: Result<AuthContext, AuthError>)
        requires
            self.wf(),
        ensures
            ctx_user(r) == session_outcome(*self, validated),
    {
        match validated {
            Err(e) => Err(AuthError::Session(e)),
            Ok(id) => match self.users.find_by_id(id) {
                None => Err(AuthError::Unauthenticated),
                Some(j) => Ok(AuthContext { user: self.users.users[j].duplicate() }),
            },
        }
    }

    /// Resolves the outcome of a session-token check to an administrator's
    /// account.
    pub fn resolve_admin(&self, validated: Result<i32, SessionError>) -> (r: Result<AuthContext, AuthError>)
        requires
            self.wf(),
        ensures
            ctx_user(r) == admin_outcome(*self, validated),
    {
        match self.resolve_session(validated) {
            Ok(ctx) => {
                if ctx.user.role == Role::Admin {
                    Ok(ctx)
                } else {
                    Err(AuthError::Forbidden)
                }
            },
            Err(e) => Err(e),
        }
    }

    /// Authenticates a request by its session-token header at time `now`.
    pub fn authenticate_at(&self, header: Option<&str>, now: i64) -> (r: Result<AuthContext, AuthError>)
        requires
            self.wf(),
        ensures
            authenticate_post(*self, header, now, r),
    {
        match header {
            None => Err(AuthError::Unauthenticated),
            Some(t) => {
                let v = validate_token(&self.config, t, now);
                let r = self.resolve_session(v);
                assert(ctx_user(r) == session_outcome(*self, v));
                r
            },
        }
    }

    /// Authenticates a request by its session-token header at time `now` and
    /// lets only administrators through.
    pub fn authorize_admin_at(&self, header: Option<&str>, now: i64) -> (r: Result<AuthContext, AuthError>)
        requires
            self.wf(),
        ensures
            admin_post(*self, header, now, r),
    {
        match header {
            None => Err(AuthError::Unauthenticated),
            Some(t) => {
                let v = validate_token(&self.config, t, now);
                let r = self.resolve_admin(v);
                assert(ctx_user(r) == admin_outcome(*self, v));
                r
            },
        }
    }

    /// Gives the account with id `user_id` the role `role`.
    pub fn grant_role(&mut self, user_id: i32, role: Role) -> (r: Result<(), AuthError>)
        requires
            old(self).wf(),
        ensures
            final(self).wf(),
            match find_id(old(self).users.users@, user_id) {
                None => r == Err::<(), AuthError>(AuthError::UserNotFound) && *final(self) == *old(self),
                Some(j) => {
                    &&& r is Ok
                    &&& final(self).users.users@ == old(self).users.users@.update(
                        j,
                        with_role(old(self).users.users@[j], role),
                    )
                    &&& final(self).users.next_id == old(self).users.next_id
                    &&& final(self).config == old(self).config
                    &&& final(self).verifications == old(self).verifications
                    &&& final(self).resets == old(self).resets
                },
            },
    {
        match self.users.find_by_id(user_id) {
            None => Err(AuthError::UserNotFound),
            Some(j) => {
                self.users.set_role(j, role);
                proof {
                    lemma_owners_same_ids(self.verifications.records@, old(self).users.users@, self.users.users@);
                    lemma_owners_same_ids(self.resets.records@, old(self).users.users@, self.users.users@);
                }
                Ok(())
            },
        }
    }

    /// Authenticates a request by its session-token header at the current
    /// time.
    pub fn require_authentication(&self, header: Option<&str>) -> (r: Result<AuthContext, AuthError>)
        requires
            self.wf(),
        ensures
            exists|now: i64| #[trigger] authenticate_post(*self, header, now, r),
    {
        let now = now_secs();
        let r = self.authenticate_at(header, now);
        assert(authenticate_post(*self, header, now, r));
        r
    }

    /// Lets only administrators through, judged at the current time.
    pub fn require_admin(&self, header: Option<&str>) -> (r: Result<AuthContext, AuthError>)
        requires
            self.wf(),
        ensures
            exists|now: i64| #[trigger] admin_post(*self, header, now, r),
    {
        let now = now_secs();
        let r = self.authorize_admin_at(header, now);
        assert(admin_post(*self, header, now, r));
        r
    }
}

} // verus!
