//! The account flows: sign-up, email verification, login, forgotten and
//! reset password, and account maintenance.

use vstd::prelude::*;

use crate::config::{expiry_after, is_expired, AuthConfig};
use crate::error::AuthError;
use crate::ledger::{find_token, not_owned_by, token_present, TokenLedger};
use crate::model::{
    ForgetPasswordData, LoginResponse, Mail, ResetPasswordRequest, TokenRecord, UpdateUser, User,
    UserRegistationData, VerifyOutcome, VerifyToken,
};
use crate::pagination::{window_of, PaginationParams};
use crate::password::{hash_password, password_matches, verify_password};
use crate::sources::{now_secs, random_uuid};
use crate::session::{create_token, session_token_of};
use crate::store::{
    id_present, lemma_find_id, users_wf,
    email_clash, email_present, find_email, find_id, new_user, updated, verified, with_password_hash,
    UserStore,
};

verus! {

/// The state of the subsystem: settings, accounts, and the stored tokens of
/// both purposes.
pub struct AuthService {
    pub config: AuthConfig,
    pub users: UserStore,
    /// Email-verification tokens.
    pub verifications: TokenLedger,
    /// Password-reset tokens.
    pub resets: TokenLedger,
}

/// Every record of `recs` is owned by an account of `users`.
pub open spec fn owners_present(recs: Seq<TokenRecord>, users: Seq<User>) -> bool {
    forall|k: int| 0 <= k < recs.len() ==> id_present(users, #[trigger] recs[k].user_id)
}

/// Owners stay present where the accounts keep their ids.
pub proof fn lemma_owners_same_ids(recs: Seq<TokenRecord>, users: Seq<User>, changed: Seq<User>)
    requires
        owners_present(recs, users),
        changed.len() == users.len(),
        forall|i: int| 0 <= i < users.len() ==> #[trigger] changed[i].id == users[i].id,
    ensures
        owners_present(recs, changed),
{
    assert forall|k: int| 0 <= k < recs.len() implies id_present(changed, #[trigger] recs[k].user_id) by {
        let i = choose|i: int| 0 <= i < users.len() && #[trigger] users[i].id == recs[k].user_id;
        assert(changed[i].id == recs[k].user_id);
    }
}

/// Owners stay present when an account is added.
pub proof fn lemma_owners_add_user(recs: Seq<TokenRecord>, users: Seq<User>, u: User)
    requires
        owners_present(recs, users),
    ensures
        owners_present(recs, users.push(u)),
{
    let more = users.push(u);
    assert forall|k: int| 0 <= k < recs.len() implies id_present(more, #[trigger] recs[k].user_id) by {
        let i = choose|i: int| 0 <= i < users.len() && #[trigger] users[i].id == recs[k].user_id;
        assert(more[i].id == recs[k].user_id);
    }
}

/// A record whose owner is present can be added.
pub proof fn lemma_owners_add_record(recs: Seq<TokenRecord>, users: Seq<User>, rec: TokenRecord)
    requires
        owners_present(recs, users),
        id_present(users, rec.user_id),
    ensures
        owners_present(recs.push(rec), users),
{
    let more = recs.push(rec);
    assert forall|k: int| 0 <= k < more.len() implies id_present(users, #[trigger] more[k].user_id) by {
        if k < recs.len() {
            assert(more[k] == recs[k]);
        }
    }
}

/// Owners stay present when a record is removed.
pub proof fn lemma_owners_remove_record(recs: Seq<TokenRecord>, users: Seq<User>, i: int)
    requires
        owners_present(recs, users),
        0 <= i < recs.len(),
    ensures
        owners_present(recs.remove(i), users),
{
    let fewer = recs.remove(i);
    assert forall|k: int| 0 <= k < fewer.len() implies id_present(users, #[trigger] fewer[k].user_id) by {
        if k < i {
            assert(fewer[k] == recs[k]);
        } else {
            assert(fewer[k] == recs[k + 1]);
        }
    }
}

/// After an account is deleted together with its records, the records left
/// are owned by the accounts left.
pub proof fn lemma_owners_delete(
    recs: Seq<TokenRecord>,
    kept: Seq<TokenRecord>,
    users: Seq<User>,
    next_id: i32,
    j: int,
)
    requires
        owners_present(recs, users),
        users_wf(users, next_id),
        0 <= j < users.len(),
        forall|a: int| #![trigger kept[a]]
            0 <= a < kept.len() ==> kept[a].user_id != users[j].id && exists|b: int|
                0 <= b < recs.len() && #[trigger] recs[b] == kept[a],
    ensures
        owners_present(kept, users.remove(j)),
{
    let left = users.remove(j);
    assert forall|a: int| 0 <= a < kept.len() implies id_present(left, #[trigger] kept[a].user_id) by {
        let b = choose|b: int| 0 <= b < recs.len() && #[trigger] recs[b] == kept[a];
        assert(id_present(users, recs[b].user_id));
        let i = choose|i: int| 0 <= i < users.len() && #[trigger] users[i].id == recs[b].user_id;
        assert(i != j);
        if i < j {
            assert(left[i] == users[i]);
        } else {
            assert(left[i - 1] == users[i]);
        }
    }
}

/// A token with value `token`, issued at `now` for `ttl` seconds, can be
/// stored: the value is not stored yet and its expiry is representable.
pub open spec fn issuable(recs: Seq<TokenRecord>, token: Seq<char>, now: i64, ttl: i64) -> bool {
    !token_present(recs, token) && now + ttl <= i64::MAX
}

/// Sign-up of `data` with the given password hash, account UUID and
/// verification token at time `now`: `before` becomes `after` and `r` is returned.
pub open spec fn sign_up_post(
    before: AuthService,
    after: AuthService,
    data: UserRegistationData,
    password_hash: String,
    uuid: String,
    token: String,
    now: i64,
    r: Result<Mail, AuthError>,
) -> bool {
    if email_present(before.users.users@, data.email@) {
        r == Err::<Mail, AuthError>(AuthError::DuplicateEmail) && after == before
    } else if !issuable(before.verifications.records@, token@, now, before.config.verification_ttl)
        || before.users.next_id == i32::MAX {
        r == Err::<Mail, AuthError>(AuthError::Internal) && after == before
    } else {
        let id = before.users.next_id;
        &&& r == Ok::<Mail, AuthError>(
            Mail::Verification { to: data.email, full_name: data.full_name, token },
        )
        &&& after.config == before.config
        &&& after.users.users@ == before.users.users@.push(
            new_user(id, uuid, data.full_name, data.email, password_hash),
        )
        &&& after.users.next_id == id + 1
        &&& after.verifications.records@ == before.verifications.records@.push(
            TokenRecord { token, user_id: id, expires_at: (now + before.config.verification_ttl) as i64 },
        )
        &&& after.resets == before.resets
    }
}

/// Email verification with token value `token` at time `now`.
pub open spec fn verify_email_post(
    before: AuthService,
    after: AuthService,
    token: Seq<char>,
    now: i64,
    r: Result<VerifyOutcome, AuthError>,
) -> bool {
    match find_token(before.verifications.records@, token) {
        None => r == Err::<VerifyOutcome, AuthError>(AuthError::InvalidToken) && after == before,
        Some(i) => {
            let rec = before.verifications.records@[i];
            if is_expired(rec.expires_at, now) {
                r == Err::<VerifyOutcome, AuthError>(AuthError::TokenExpired) && after == before
            } else {
                match find_id(before.users.users@, rec.user_id) {
                    None => r == Err::<VerifyOutcome, AuthError>(AuthError::UserNotFound) && after == before,
                    Some(j) => {
                        let u = before.users.users@[j];
                        if u.is_verified {
                            r == Ok::<VerifyOutcome, AuthError>(VerifyOutcome::AlreadyVerified) && after == before
                        } else {
                            &&& r == Ok::<VerifyOutcome, AuthError>(
                                VerifyOutcome::Verified(Mail::Welcome { to: u.email, full_name: u.full_name }),
                            )
                            &&& after.config == before.config
                            &&& after.users.users@ == before.users.users@.update(j, verified(u))
                            &&& after.users.next_id == before.users.next_id
                            &&& after.verifications == before.verifications
                            &&& after.resets == before.resets
                        }
                    },
                }
            }
        },
    }
}

/// The items of `items` from position `offset` on, at most `limit` of them.
pub open spec fn page_of<T>(items: Seq<T>, offset: u64, limit: u64) -> Seq<T> {
    let end = if offset + limit < items.len() {
        offset + limit
    } else {
        items.len() as int
    };
    items.subrange(offset as int, end)
}

/// What a login returns: the session, or the refusal, and the mail to send.
pub type LoginResult = (Result<LoginResponse, AuthError>, Option<Mail>);

/// Login with `data`'s email and password at time `now`, where `fresh` is the
/// token a resent verification mail would carry.
pub open spec fn login_post(
    before: AuthService,
    after: AuthService,
    data: UserRegistationData,
    fresh: String,
    now: i64,
    r: LoginResult,
) -> bool {
    match find_email(before.users.users@, data.email@) {
        None => r == (Err::<LoginResponse, AuthError>(AuthError::UserNotFound), None::<Mail>) && after == before,
        Some(i) => {
            let u = before.users.users@[i];
            if !u.is_verified {
                if issuable(before.verifications.records@, fresh@, now, before.config.verification_ttl) {
                    &&& r == (
                        Err::<LoginResponse, AuthError>(AuthError::AccountNotVerified),
                        Some(Mail::Verification { to: u.email, full_name: u.full_name, token: fresh }),
                    )
                    &&& after.config == before.config
                    &&& after.users == before.users
                    &&& after.verifications.records@ == before.verifications.records@.push(
                        TokenRecord {
                            token: fresh,
                            user_id: u.id,
                            expires_at: (now + before.config.verification_ttl) as i64,
                        },
                    )
                    &&& after.resets == before.resets
                } else {
                    r == (Err::<LoginResponse, AuthError>(AuthError::Internal), None::<Mail>) && after == before
                }
            } else if !password_matches(data.password@, u.password_hash@) {
                r == (Err::<LoginResponse, AuthError>(AuthError::InvalidPassword), None::<Mail>) && after == before
            } else {
                &&& after == before
                &&& r.1 is None
                &&& match r.0 {
                    Ok(resp) => {
                        &&& now + before.config.session_ttl <= i64::MAX
                        &&& resp.full_name == u.full_name
                        &&& resp.email == u.email
                        &&& resp.token@ == session_token_of(
                            u.id,
                            (now + before.config.session_ttl) as i64,
                            before.config.secret@,
                        )
                    },
                    Err(e) => e == AuthError::Internal && now + before.config.session_ttl > i64::MAX,
                }
            }
        },
    }
}

/// The link a password-reset mail carries for `token`.
pub open spec fn reset_link(base_url: Seq<char>, token: Seq<char>) -> Seq<char> {
    base_url + "/reset-password?token="@ + token
}

/// A forgotten-password request for `data`'s email at time `now`, where
/// `fresh` is the reset token to issue.
pub open spec fn forget_password_post(
    before: AuthService,
    after: AuthService,
    data: ForgetPasswordData,
    fresh: String,
    now: i64,
    r: Result<Mail, AuthError>,
) -> bool {
    match find_email(before.users.users@, data.email@) {
        None => r == Err::<Mail, AuthError>(AuthError::UserNotFound) && after == before,
        Some(i) => {
            let u = before.users.users@[i];
            if !u.is_verified {
                r == Err::<Mail, AuthError>(AuthError::UserNotVerified) && after == before
            } else if !issuable(before.resets.records@, fresh@, now, before.config.reset_ttl) {
                r == Err::<Mail, AuthError>(AuthError::Internal) && after == before
            } else {
                &&& r matches Ok(Mail::PasswordReset { to, full_name, link })
                &&& r->Ok_0->PasswordReset_to == u.email
                &&& r->Ok_0->PasswordReset_full_name == u.full_name
                &&& r->Ok_0->PasswordReset_link@ == reset_link(before.config.base_url@, fresh@)
                &&& after.config == before.config
                &&& after.users == before.users
                &&& after.verifications == before.verifications
                &&& after.resets.records@ == before.resets.records@.push(
                    TokenRecord { token: fresh, user_id: u.id, expires_at: (now + before.config.reset_ttl) as i64 },
                )
            }
        },
    }
}

/// Which account a reset token value designates at time `now`, by position
/// of its record and of the account, or why it designates none.
pub open spec fn reset_target(s: AuthService, token: Seq<char>, now: i64) -> Result<(int, int), AuthError> {
    match find_token(s.resets.records@, token) {
        None => Err(AuthError::InvalidToken),
        Some(i) => {
            let rec = s.resets.records@[i];
            if is_expired(rec.expires_at, now) {
                Err(AuthError::TokenExpired)
            } else {
                match find_id(s.users.users@, rec.user_id) {
                    None => Err(AuthError::UserNotFound),
                    Some(j) => Ok((i, j)),
                }
            }
        },
    }
}

/// A password reset with `data`'s token at time `now`, storing `password_hash`.
/// The reset token is used up.
pub open spec fn reset_password_post(
    before: AuthService,
    after: AuthService,
    data: ResetPasswordRequest,
    password_hash: String,
    now: i64,
    r: Result<(), AuthError>,
) -> bool {
    match reset_target(before, data.token@, now) {
        Err(e) => r == Err::<(), AuthError>(e) && after == before,
        Ok((i, j)) => {
            &&& r is Ok
            &&& after.config == before.config
            &&& after.users.users@ == before.users.users@.update(
                j,
                with_password_hash(before.users.users@[j], password_hash),
            )
            &&& after.users.next_id == before.users.next_id
            &&& after.verifications == before.verifications
            &&& after.resets.records@ == before.resets.records@.remove(i)
        },
    }
}

/// A password reset with `data`'s token at time `now` that hashes the new
/// password itself: a token that designates no account is refused as
/// `reset_target` says; otherwise the password is replaced by a hash that
/// matches it, or, where hashing failed, nothing changes and the answer is
/// `Internal`.
pub open spec fn reset_password_hashing_post(
    before: AuthService,
    after: AuthService,
    data: ResetPasswordRequest,
    now: i64,
    r: Result<(), AuthError>,
) -> bool {
    match reset_target(before, data.token@, now) {
        Err(e) => r == Err::<(), AuthError>(e) && after == before,
        Ok(_) => {
            ||| r == Err::<(), AuthError>(AuthError::Internal) && after == before
            ||| exists|h: String|
                #[trigger] reset_password_post(before, after, data, h, now, r) && password_matches(
                    data.new_password@,
                    h@,
                ) && r is Ok
        },
    }
}

impl AuthService {
    pub open spec fn wf(&self) -> bool {
        &&& self.config.wf()
        &&& self.users.wf()
        &&& self.verifications.wf()
        &&& self.resets.wf()
        &&& owners_present(self.verifications.records@, self.users.users@)
        &&& owners_present(self.resets.records@, self.users.users@)
    }

    /// A service with no accounts and no stored tokens.
    pub fn new(config: AuthConfig) -> (r: AuthService)
        requires
            config.wf(),
        ensures
            r.wf(),
            r.config == config,
            r.users.users@.len() == 0,
            r.users.next_id == 1,
            r.verifications.records@.len() == 0,
            r.resets.records@.len() == 0,
    {
        AuthService {
            config,
            users: UserStore::new(),
            verifications: TokenLedger::new(),
            resets: TokenLedger::new(),
        }
    }

    /// Sign-up with the outside inputs given: the hash of the password, the
    /// account's UUID, the verification token and the time. Creates an
    /// unverified account and stores the token; the verification mail is
    /// returned for sending.
    pub fn sign_up_with(
        &mut self,
        data: &UserRegistationData,
        password_hash: String,
        uuid: String,
        token: String,
        now: i64,
    ) -> (r: Result<Mail, AuthError>)
        requires
            old(self).wf(),
        ensures
            final(self).wf(),
            sign_up_post(*old(self), *final(self), *data, password_hash, uuid, token, now, r),
    {
        if self.users.find_by_email(&data.email).is_some() {
            return Err(AuthError::DuplicateEmail);
        }
        let expires_at = match expiry_after(now, self.config.verification_ttl) {
            Some(e) => e,
            None => return Err(AuthError::Internal),
        };
        if self.verifications.find(&token).is_some() {
            return Err(AuthError::Internal);
        }
        if self.users.next_id == i32::MAX {
            return Err(AuthError::Internal);
        }
        let id = match self.users.create(uuid, data.full_name.clone(), data.email.clone(), password_hash) {
            Ok(id) => id,
            Err(e) => return Err(e),
        };
        proof {
            let users = self.users.users@;
            lemma_owners_add_user(old(self).verifications.records@, old(self).users.users@, users.last());
            lemma_owners_add_user(old(self).resets.records@, old(self).users.users@, users.last());
            assert(users[users.len() - 1].id == id);
            assert(id_present(users, id));
            lemma_owners_add_record(
                self.verifications.records@,
                users,
                TokenRecord { token, user_id: id, expires_at },
            );
        }
        match self.verifications.insert(token.clone(), id, expires_at) {
            Ok(()) => {},
            Err(e) => return Err(e),
        }
        Ok(Mail::Verification { to: data.email.clone(), full_name: data.full_name.clone(), token })
    }

    /// Email verification at time `now`. A known, unexpired token marks its
    /// account verified and returns the welcome mail; a second use on a
    /// verified account changes nothing and reports `AlreadyVerified`.
    pub fn verify_email_at(&mut self, data: &VerifyToken, now: i64) -> (r: Result<VerifyOutcome, AuthError>)
        requires
            old(self).wf(),
        ensures
            final(self).wf(),
            verify_email_post(*old(self), *final(self), data.token@, now, r),
    {
        let i = match self.verifications.find(&data.token) {
            Some(i) => i,
            None => return Err(AuthError::InvalidToken),
        };
        let user_id = self.verifications.records[i].user_id;
        if now > self.verifications.records[i].expires_at {
            return Err(AuthError::TokenExpired);
        }
        let j = match self.users.find_by_id(user_id) {
            Some(j) => j,
            None => return Err(AuthError::UserNotFound),
        };
        if self.users.users[j].is_verified {
            return Ok(VerifyOutcome::AlreadyVerified);
        }
        let to = self.users.users[j].email.clone();
        let full_name = self.users.users[j].full_name.clone();
        self.users.mark_verified(j);
        proof {
            lemma_owners_same_ids(self.verifications.records@, old(self).users.users@, self.users.users@);
            lemma_owners_same_ids(self.resets.records@, old(self).users.users@, self.users.users@);
        }
        Ok(VerifyOutcome::Verified(Mail::Welcome { to, full_name }))
    }

    /// Login at time `now`; `fresh` is the token a resent verification mail
    /// carries. An unverified account gets a new verification token and mail
    /// and the login fails; a wrong password fails and changes nothing (there
    /// is no lockout); a right one mints a session token.
    pub fn login_at(&mut self, data: &UserRegistationData, fresh: String, now: i64) -> (r: LoginResult)
        requires
            old(self).wf(),
        ensures
            final(self).wf(),
            login_post(*old(self), *final(self), *data, fresh, now, r),
    {
        let i = match self.users.find_by_email(&data.email) {
            Some(i) => i,
            None => return (Err(AuthError::UserNotFound), None),
        };
        if !self.users.users[i].is_verified {
            let expires_at = match expiry_after(now, self.config.verification_ttl) {
                Some(e) => e,
                None => return (Err(AuthError::Internal), None),
            };
            let user_id = self.users.users[i].id;
            let to = self.users.users[i].email.clone();
            let full_name = self.users.users[i].full_name.clone();
            return match self.verifications.insert(fresh.clone(), user_id, expires_at) {
                Ok(()) => (
                    Err(AuthError::AccountNotVerified),
                    Some(Mail::Verification { to, full_name, token: fresh }),
                ),
                Err(e) => (Err(e), None),
            };
        }
        if !verify_password(data.password.as_str(), self.users.users[i].password_hash.as_str()) {
            return (Err(AuthError::InvalidPassword), None);
        }
        match create_token(&self.config, self.users.users[i].id, now) {
            Ok(token) => (
                Ok(
                    LoginResponse {
                        full_name: self.users.users[i].full_name.clone(),
                        email: self.users.users[i].email.clone(),
                        token,
                    },
                ),
                None,
            ),
            Err(e) => (Err(e), None),
        }
    }

    /// Forgotten-password request at time `now`; `fresh` is the reset token
    /// to issue. Only a verified account gets a reset token and the mail with
    /// its link.
    pub fn forget_password_at(&mut self, data: &ForgetPasswordData, fresh: String, now: i64) -> (r: Result<Mail, AuthError>)
        requires
            old(self).wf(),
        ensures
            final(self).wf(),
            forget_password_post(*old(self), *final(self), *data, fresh, now, r),
    {
        let i = match self.users.find_by_email(&data.email) {
            Some(i) => i,
            None => return Err(AuthError::UserNotFound),
        };
        if !self.users.users[i].is_verified {
            return Err(AuthError::UserNotVerified);
        }
        let expires_at = match expiry_after(now, self.config.reset_ttl) {
            Some(e) => e,
            None => return Err(AuthError::Internal),
        };
        let user_id = self.users.users[i].id;
        let mut link = self.config.base_url.clone();
        link.append("/reset-password?token=");
        link.append(fresh.as_str());
        let to = self.users.users[i].email.clone();
        let full_name = self.users.users[i].full_name.clone();
        match self.resets.insert(fresh, user_id, expires_at) {
            Ok(()) => Ok(Mail::PasswordReset { to, full_name, link }),
            Err(e) => Err(e),
        }
    }

    /// The positions of the reset record and of the account that a reset
    /// token designates at time `now`.
    pub fn check_reset_token(&self, token: &String, now: i64) -> (r: Result<(usize, usize), AuthError>)
        requires
            self.wf(),
        ensures
            r matches Ok((i, j)) ==> reset_target(*self, token@, now) == Ok::<(int, int), AuthError>(
                (i as int, j as int),
            ),
            r matches Err(e) ==> reset_target(*self, token@, now) == Err::<(int, int), AuthError>(e),
    {
        let i = match self.resets.find(token) {
            Some(i) => i,
            None => return Err(AuthError::InvalidToken),
        };
        if now > self.resets.records[i].expires_at {
            return Err(AuthError::TokenExpired);
        }
        match self.users.find_by_id(self.resets.records[i].user_id) {
            Some(j) => Ok((i, j)),
            None => Err(AuthError::UserNotFound),
        }
    }

    /// Password reset at time `now`, storing `password_hash` (the hash of the
    /// new password). The reset token is removed, so it cannot be replayed.
    pub fn reset_password_with(&mut self, data: &ResetPasswordRequest, password_hash: String, now: i64) -> (r: Result<(), AuthError>)
        requires
            old(self).wf(),
        ensures
            final(self).wf(),
            reset_password_post(*old(self), *final(self), *data, password_hash, now, r),
    {
        let (i, j) = match self.check_reset_token(&data.token, now) {
            Ok(p) => p,
            Err(e) => return Err(e),
        };
        self.users.set_password_hash(j, password_hash);
        proof {
            lemma_owners_same_ids(self.verifications.records@, old(self).users.users@, self.users.users@);
            lemma_owners_same_ids(self.resets.records@, old(self).users.users@, self.users.users@);
            lemma_owners_remove_record(self.resets.records@, self.users.users@, i as int);
        }
        self.resets.remove(i);
        Ok(())
    }

    /// Sign-up: hashes the password, draws the account's UUID and the
    /// verification token, reads the clock, and proceeds as `sign_up_with`.
    /// A taken email is refused before any of that.
    pub fn sign_up(&mut self, data: &UserRegistationData) -> (r: Result<Mail, AuthError>)
        requires
            old(self).wf(),
        ensures
            final(self).wf(),
            email_present(old(self).users.users@, data.email@) ==> r == Err::<Mail, AuthError>(
                AuthError::DuplicateEmail,
            ) && *final(self) == *old(self),
            !email_present(old(self).users.users@, data.email@) && r is Err ==> r == Err::<Mail, AuthError>(
                AuthError::Internal,
            ) && *final(self) == *old(self),
            r is Ok ==> exists|h: String, uuid: String, token: String, now: i64|
                #[trigger] sign_up_post(*old(self), *final(self), *data, h, uuid, token, now, r)
                    && password_matches(data.password@, h@),
    {
        if self.users.find_by_email(&data.email).is_some() {
            return Err(AuthError::DuplicateEmail);
        }
        let h = match hash_password(data.password.as_str(), self.config.hash_cost) {
            Ok(h) => h,
            Err(e) => return Err(e),
        };
        let uuid = random_uuid();
        let token = random_uuid();
        let now = now_secs();
        let ghost (gh, gu, gt) = (h, uuid, token);
        let r = self.sign_up_with(data, h, uuid, token, now);
        assert(sign_up_post(*old(self), *self, *data, gh, gu, gt, now, r));
        r
    }

    /// Email verification at the current time.
    pub fn verify_email(&mut self, data: &VerifyToken) -> (r: Result<VerifyOutcome, AuthError>)
        requires
            old(self).wf(),
        ensures
            final(self).wf(),
            exists|now: i64| #[trigger] verify_email_post(*old(self), *final(self), data.token@, now, r),
    {
        let now = now_secs();
        let r = self.verify_email_at(data, now);
        assert(verify_email_post(*old(self), *self, data.token@, now, r));
        r
    }

    /// Login at the current time, with a fresh token ready for a resent
    /// verification mail.
    pub fn login(&mut self, data: &UserRegistationData) -> (r: LoginResult)
        requires
            old(self).wf(),
        ensures
            final(self).wf(),
            exists|fresh: String, now: i64| #[trigger] login_post(*old(self), *final(self), *data, fresh, now, r),
    {
        let fresh = random_uuid();
        let now = now_secs();
        let ghost gf = fresh;
        let r = self.login_at(data, fresh, now);
        assert(login_post(*old(self), *self, *data, gf, now, r));
        r
    }

    /// Forgotten-password request at the current time, with a fresh reset
    /// token.
    pub fn forget_password(&mut self, data: &ForgetPasswordData) -> (r: Result<Mail, AuthError>)
        requires
            old(self).wf(),
        ensures
            final(self).wf(),
            exists|fresh: String, now: i64|
                #[trigger] forget_password_post(*old(self), *final(self), *data, fresh, now, r),
    {
        let fresh = random_uuid();
        let now = now_secs();
        let ghost gf = fresh;
        let r = self.forget_password_at(data, fresh, now);
        assert(forget_password_post(*old(self), *self, *data, gf, now, r));
        r
    }

    /// Password reset at the current time. The token is checked before the
    /// new password is hashed.
    pub fn reset_password(&mut self, data: &ResetPasswordRequest) -> (r: Result<(), AuthError>)
        requires
            old(self).wf(),
        ensures
            final(self).wf(),
            find_token(old(self).resets.records@, data.token@) is None ==> r == Err::<(), AuthError>(
                AuthError::InvalidToken,
            ) && *final(self) == *old(self),
            exists|now: i64| #[trigger] reset_password_hashing_post(*old(self), *final(self), *data, now, r),
    {
        let now = now_secs();
        match self.check_reset_token(&data.token, now) {
            Ok(_) => {},
            Err(e) => {
                assert(reset_password_hashing_post(*old(self), *self, *data, now, Err(e)));
                return Err(e);
            },
        }
        let h = match hash_password(data.new_password.as_str(), self.config.hash_cost) {
            Ok(h) => h,
            Err(e) => {
                assert(reset_password_hashing_post(*old(self), *self, *data, now, Err(e)));
                return Err(e);
            },
        };
        let ghost gh = h;
        let r = self.reset_password_with(data, h, now);
        assert(reset_password_post(*old(self), *self, *data, gh, now, r));
        assert(reset_password_hashing_post(*old(self), *self, *data, now, r));
        r
    }

    /// The account with id `user_id`.
    pub fn get_user_by_id(&self, user_id: i32) -> (r: Result<User, AuthError>)
        requires
            self.wf(),
        ensures
            match find_id(self.users.users@, user_id) {
                None => r == Err::<User, AuthError>(AuthError::UserNotFound),
                Some(j) => r == Ok::<User, AuthError>(self.users.users@[j]),
            },
    {
        match self.users.find_by_id(user_id) {
            Some(j) => Ok(self.users.users[j].duplicate()),
            None => Err(AuthError::UserNotFound),
        }
    }

    /// Applies a partial update to the account with id `user_id` and returns
    /// the account as stored afterwards. An email that another account has
    /// is refused.
    pub fn update_user(&mut self, user_id: i32, p: &UpdateUser) -> (r: Result<User, AuthError>)
        requires
            old(self).wf(),
        ensures
            final(self).wf(),
            match find_id(old(self).users.users@, user_id) {
                None => r == Err::<User, AuthError>(AuthError::UserNotFound) && *final(self) == *old(self),
                Some(j) => if email_clash(old(self).users.users@, j, *p) {
                    r == Err::<User, AuthError>(AuthError::DuplicateEmail) && *final(self) == *old(self)
                } else {
                    &&& r == Ok::<User, AuthError>(updated(old(self).users.users@[j], *p))
                    &&& final(self).users.users@ == old(self).users.users@.update(
                        j,
                        updated(old(self).users.users@[j], *p),
                    )
                    &&& final(self).users.next_id == old(self).users.next_id
                    &&& final(self).config == old(self).config
                    &&& final(self).verifications == old(self).verifications
                    &&& final(self).resets == old(self).resets
                },
            },
    {
        let j = match self.users.find_by_id(user_id) {
            Some(j) => j,
            None => return Err(AuthError::UserNotFound),
        };
        match self.users.apply_update(j, p) {
            Ok(()) => {
                proof {
                    lemma_owners_same_ids(self.verifications.records@, old(self).users.users@, self.users.users@);
                    lemma_owners_same_ids(self.resets.records@, old(self).users.users@, self.users.users@);
                }
                Ok(self.users.users[j].duplicate())
            },
            Err(e) => Err(e),
        }
    }

    /// The accounts on the requested page, in store order; a page that does
    /// not exist is refused with `PageOutOfRange`.
    pub fn get_all_users(&self, params: &PaginationParams) -> (r: Result<Vec<User>, AuthError>)
        requires
            self.wf(),
        ensures
            match window_of(*params, self.users.users@.len() as u64) {
                Err(e) => r == Err::<Vec<User>, AuthError>(e),
                Ok(w) => r matches Ok(v) && v@ == page_of(self.users.users@, w.offset, w.limit),
            },
    {
        let len = self.users.users.len();
        let w = match params.window(len as u64) {
            Ok(w) => w,
            Err(e) => return Err(e),
        };
        let start = w.offset as usize;
        let end: usize = if w.limit < (len - start) as u64 {
            start + w.limit as usize
        } else {
            len
        };
        let mut out: Vec<User> = Vec::new();
        let mut k: usize = start;
        while k < end
            invariant
                start <= k <= end <= len,
                len == self.users.users@.len(),
                out@ == self.users.users@.subrange(start as int, k as int),
            decreases end - k,
        {
            out.push(self.users.users[k].duplicate());
            k += 1;
            assert(out@ =~= self.users.users@.subrange(start as int, k as int));
        }
        Ok(out)
    }

    /// Deletes the account with id `user_id` together with every token it
    /// owns, of both purposes.
    pub fn delete_user(&mut self, user_id: i32) -> (r: Result<(), AuthError>)
        requires
            old(self).wf(),
        ensures
            final(self).wf(),
            match find_id(old(self).users.users@, user_id) {
                None => r == Err::<(), AuthError>(AuthError::UserNotFound) && *final(self) == *old(self),
                Some(j) => {
                    &&& r is Ok
                    &&& final(self).users.users@ == old(self).users.users@.remove(j)
                    &&& final(self).users.next_id == old(self).users.next_id
                    &&& final(self).config == old(self).config
                    &&& final(self).verifications.records@ == not_owned_by(
                        old(self).verifications.records@,
                        user_id,
                    )
                    &&& final(self).resets.records@ == not_owned_by(old(self).resets.records@, user_id)
                },
            },
    {
        match self.users.find_by_id(user_id) {
            None => Err(AuthError::UserNotFound),
            Some(j) => {
                proof {
                    lemma_find_id(old(self).users.users@, old(self).users.next_id, j as int);
                }
                self.users.remove(j);
                self.verifications.remove_owned_by(user_id);
                self.resets.remove_owned_by(user_id);
                proof {
                    lemma_owners_delete(
                        old(self).verifications.records@,
                        self.verifications.records@,
                        old(self).users.users@,
                        old(self).users.next_id,
                        j as int,
                    );
                    lemma_owners_delete(
                        old(self).resets.records@,
                        self.resets.records@,
                        old(self).users.users@,
                        old(self).users.next_id,
                        j as int,
                    );
                }
                Ok(())
            },
        }
    }
}

} // verus!
