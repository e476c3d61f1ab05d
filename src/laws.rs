//! Properties of the flows taken together, each proved over the flows'
//! postconditions.

use vstd::prelude::*;

use crate::error::AuthError;
use crate::ledger::{find_token, lemma_find_token, token_present};
use crate::middleware::{admin_post, ctx_user};
use crate::model::{
    ForgetPasswordData, LoginResponse, Mail, ResetPasswordRequest, Role, UserRegistationData,
    VerifyOutcome,
};
use crate::password::password_matches;
use crate::service::{
    reset_target,
    forget_password_post, issuable, login_post, reset_password_post, sign_up_post, verify_email_post,
    AuthService, LoginResult,
};
use crate::session::session_token_of;
use crate::store::{email_present, find_email, find_id, lemma_find_email, lemma_find_id};

verus! {

/// Sign-up followed by login before verification fails with
/// `AccountNotVerified`; once the token from the sign-up mail has verified the
/// account, login with the same email and password mints the session token of
/// the new account.
/// Excluded: a resend token that is already stored, and an expiry past the
/// range of `i64`.
pub proof fn lemma_sign_up_verify_login(
    s0: AuthService,
    s1: AuthService,
    s2: AuthService,
    s3: AuthService,
    s4: AuthService,
    data: UserRegistationData,
    password_hash: String,
    uuid: String,
    token: String,
    t0: i64,
    signed_up: Result<Mail, AuthError>,
    fresh: String,
    t1: i64,
    first_login: LoginResult,
    t2: i64,
    verification: Result<VerifyOutcome, AuthError>,
    fresh2: String,
    t3: i64,
    second_login: LoginResult,
)
    requires
        s0.wf(),
        s1.wf(),
        s2.wf(),
        s3.wf(),
        sign_up_post(s0, s1, data, password_hash, uuid, token, t0, signed_up),
        signed_up is Ok,
        password_matches(data.password@, password_hash@),
        login_post(s1, s2, data, fresh, t1, first_login),
        issuable(s1.verifications.records@, fresh@, t1, s1.config.verification_ttl),
        verify_email_post(s2, s3, token@, t2, verification),
        t2 <= t0 + s0.config.verification_ttl,
        login_post(s3, s4, data, fresh2, t3, second_login),
        t3 + s0.config.session_ttl <= i64::MAX,
    ensures
        first_login.0 == Err::<LoginResponse, AuthError>(AuthError::AccountNotVerified),
        verification matches Ok(VerifyOutcome::Verified(_)),
        second_login.0 is Ok,
        second_login.0 matches Ok(resp) ==> resp.token@ == session_token_of(
            s0.users.next_id,
            (t3 + s0.config.session_ttl) as i64,
            s0.config.secret@,
        ),
{
    let k = s0.users.users@.len() as int;
    let id = s0.users.next_id;
    assert(s1.users.users@[k].email@ == data.email@);
    lemma_find_email(s1.users.users@, s1.users.next_id, k);
    let n = s0.verifications.records@.len() as int;
    assert(s2.verifications.records@[n] == s1.verifications.records@[n]);
    assert(s2.verifications.records@[n].token@ == token@);
    lemma_find_token(s2.verifications.records@, n);
    assert(s2.users.users@[k].id == id);
    lemma_find_id(s2.users.users@, s2.users.next_id, k);
    assert(s3.users.users@[k].email@ == data.email@);
    lemma_find_email(s3.users.users@, s3.users.next_id, k);
}

/// Verifying twice with the same token, while it is valid: the first call
/// verifies the unverified account and returns the welcome mail, the second
/// answers `AlreadyVerified` and changes nothing.
pub proof fn lemma_verify_email_twice(
    s0: AuthService,
    s1: AuthService,
    s2: AuthService,
    token: Seq<char>,
    i: int,
    j: int,
    t1: i64,
    first: Result<VerifyOutcome, AuthError>,
    t2: i64,
    second: Result<VerifyOutcome, AuthError>,
)
    requires
        s0.wf(),
        s1.wf(),
        find_token(s0.verifications.records@, token) == Some(i),
        t1 <= s0.verifications.records@[i].expires_at,
        t2 <= s0.verifications.records@[i].expires_at,
        find_id(s0.users.users@, s0.verifications.records@[i].user_id) == Some(j),
        !s0.users.users@[j].is_verified,
        verify_email_post(s0, s1, token, t1, first),
        verify_email_post(s1, s2, token, t2, second),
    ensures
        first matches Ok(VerifyOutcome::Verified(_)),
        second == Ok::<VerifyOutcome, AuthError>(VerifyOutcome::AlreadyVerified),
        s2 == s1,
{
    assert(s1.users.users@[j].id == s0.users.users@[j].id);
    lemma_find_id(s1.users.users@, s1.users.next_id, j);
}

/// A password-reset token used after its lifetime is refused with
/// `TokenExpired`, and nothing changes.
pub proof fn lemma_reset_token_expires(
    s0: AuthService,
    s1: AuthService,
    s2: AuthService,
    request: ForgetPasswordData,
    fresh: String,
    t0: i64,
    mailed: Result<Mail, AuthError>,
    data: ResetPasswordRequest,
    password_hash: String,
    t1: i64,
    r: Result<(), AuthError>,
)
    requires
        s0.wf(),
        s1.wf(),
        forget_password_post(s0, s1, request, fresh, t0, mailed),
        mailed is Ok,
        data.token@ == fresh@,
        t1 > t0 + s0.config.reset_ttl,
        reset_password_post(s1, s2, data, password_hash, t1, r),
    ensures
        r == Err::<(), AuthError>(AuthError::TokenExpired),
        s2 == s1,
{
    let n = s0.resets.records@.len() as int;
    assert(s1.resets.records@[n].token@ == fresh@);
    lemma_find_token(s1.resets.records@, n);
}

/// A well-formed reset token that was never issued is refused with
/// `InvalidToken`, and nothing changes.
pub proof fn lemma_unknown_reset_token(
    s0: AuthService,
    s1: AuthService,
    data: ResetPasswordRequest,
    password_hash: String,
    now: i64,
    r: Result<(), AuthError>,
)
    requires
        s0.wf(),
        !token_present(s0.resets.records@, data.token@),
        reset_password_post(s0, s1, data, password_hash, now, r),
    ensures
        r == Err::<(), AuthError>(AuthError::InvalidToken),
        s1 == s0,
{
}

/// Logins with a wrong password fail with `InvalidPassword`, mint nothing and
/// change nothing; after three of them, login with the right password still
/// mints the account's session token: there is no lockout. Excluded: an
/// expiry past the range of `i64`.
pub proof fn lemma_no_lockout(
    s0: AuthService,
    s1: AuthService,
    s2: AuthService,
    s3: AuthService,
    s4: AuthService,
    wrong: UserRegistationData,
    right: UserRegistationData,
    i: int,
    f1: String,
    t1: i64,
    r1: LoginResult,
    f2: String,
    t2: i64,
    r2: LoginResult,
    f3: String,
    t3: i64,
    r3: LoginResult,
    f4: String,
    t4: i64,
    r4: LoginResult,
)
    requires
        s0.wf(),
        wrong.email@ == right.email@,
        find_email(s0.users.users@, right.email@) == Some(i),
        s0.users.users@[i].is_verified,
        !password_matches(wrong.password@, s0.users.users@[i].password_hash@),
        password_matches(right.password@, s0.users.users@[i].password_hash@),
        login_post(s0, s1, wrong, f1, t1, r1),
        login_post(s1, s2, wrong, f2, t2, r2),
        login_post(s2, s3, wrong, f3, t3, r3),
        login_post(s3, s4, right, f4, t4, r4),
        t4 + s0.config.session_ttl <= i64::MAX,
    ensures
        r1 == (Err::<LoginResponse, AuthError>(AuthError::InvalidPassword), None::<Mail>),
        r2 == r1,
        r3 == r1,
        s3 == s0,
        s4 == s0,
        r4.0 is Ok,
        r4.0 matches Ok(resp) ==> resp.token@ == session_token_of(
            s0.users.users@[i].id,
            (t4 + s0.config.session_ttl) as i64,
            s0.config.secret@,
        ),
{
}

/// A second sign-up with an email that a first sign-up registered fails with
/// `DuplicateEmail` and leaves the state as it was: no second account and no
/// verification token for one.
pub proof fn lemma_duplicate_email(
    s0: AuthService,
    s1: AuthService,
    s2: AuthService,
    first: UserRegistationData,
    h1: String,
    u1: String,
    k1: String,
    t1: i64,
    r1: Result<Mail, AuthError>,
    second: UserRegistationData,
    h2: String,
    u2: String,
    k2: String,
    t2: i64,
    r2: Result<Mail, AuthError>,
)
    requires
        s0.wf(),
        sign_up_post(s0, s1, first, h1, u1, k1, t1, r1),
        r1 is Ok,
        second.email@ == first.email@,
        sign_up_post(s1, s2, second, h2, u2, k2, t2, r2),
    ensures
        r2 == Err::<Mail, AuthError>(AuthError::DuplicateEmail),
        s2 == s1,
        s2.users.users@.len() == s0.users.users@.len() + 1,
        s2.verifications.records@.len() == s0.verifications.records@.len() + 1,
{
    let k = s0.users.users@.len() as int;
    assert(s1.users.users@[k].email@ == second.email@);
    assert(email_present(s1.users.users@, second.email@));
}

/// On a route reserved to administrators, a valid session token of an
/// account that is not an administrator is refused with `Forbidden`, and one
/// of an administrator is let through with that account.
pub proof fn lemma_admin_gate(
    s: AuthService,
    j: int,
    expires_at: i64,
    now: i64,
    token: &str,
    r: Result<crate::model::AuthContext, AuthError>,
)
    requires
        s.wf(),
        0 <= j < s.users.users@.len(),
        token@ == session_token_of(s.users.users@[j].id, expires_at, s.config.secret@),
        now <= expires_at,
        admin_post(s, Some(token), now, r),
    ensures
        s.users.users@[j].role != Role::Admin ==> r == Err::<crate::model::AuthContext, AuthError>(
            AuthError::Forbidden,
        ),
        s.users.users@[j].role == Role::Admin ==> (r matches Ok(ctx) && ctx.user == s.users.users@[j]),
{
    lemma_find_id(s.users.users@, s.users.next_id, j);
    assert(ctx_user(r) == crate::middleware::admin_outcome(
        s,
        crate::session::minted_outcome(s.users.users@[j].id, expires_at, now),
    ));
}

/// A password-reset token works once: after a successful reset, the same
/// token is refused with `InvalidToken` and nothing changes.
pub proof fn lemma_reset_token_single_use(
    s0: AuthService,
    s1: AuthService,
    s2: AuthService,
    data: ResetPasswordRequest,
    h1: String,
    t1: i64,
    r1: Result<(), AuthError>,
    h2: String,
    t2: i64,
    r2: Result<(), AuthError>,
)
    requires
        s0.wf(),
        reset_password_post(s0, s1, data, h1, t1, r1),
        r1 is Ok,
        reset_password_post(s1, s2, data, h2, t2, r2),
    ensures
        r2 == Err::<(), AuthError>(AuthError::InvalidToken),
        s2 == s1,
{
    let recs = s0.resets.records@;
    let i = find_token(recs, data.token@)->Some_0;
    let rest = s1.resets.records@;
    assert(rest == recs.remove(i));
    if token_present(rest, data.token@) {
        let k = choose|k: int| 0 <= k < rest.len() && #[trigger] rest[k].token@ == data.token@;
        if k < i {
            assert(rest[k] == recs[k]);
        } else {
            assert(rest[k] == recs[k + 1]);
        }
    }
}

/// After a successful password reset of a verified account, login with the
/// new password mints the account's session token and login with a password
/// that the new hash does not accept fails with `InvalidPassword`.
/// Excluded: an expiry past the range of `i64`.
pub proof fn lemma_login_after_reset(
    s0: AuthService,
    s1: AuthService,
    s2: AuthService,
    s3: AuthService,
    data: ResetPasswordRequest,
    password_hash: String,
    t0: i64,
    reset: Result<(), AuthError>,
    i: int,
    j: int,
    with_new: UserRegistationData,
    f1: String,
    t1: i64,
    r1: LoginResult,
    with_old: UserRegistationData,
    f2: String,
    t2: i64,
    r2: LoginResult,
)
    requires
        s0.wf(),
        s1.wf(),
        reset_target(s0, data.token@, t0) == Ok::<(int, int), AuthError>((i, j)),
        s0.users.users@[j].is_verified,
        reset_password_post(s0, s1, data, password_hash, t0, reset),
        password_matches(data.new_password@, password_hash@),
        with_new.email@ == s0.users.users@[j].email@,
        with_new.password@ == data.new_password@,
        login_post(s1, s2, with_new, f1, t1, r1),
        t1 + s0.config.session_ttl <= i64::MAX,
        with_old.email@ == s0.users.users@[j].email@,
        !password_matches(with_old.password@, password_hash@),
        login_post(s1, s3, with_old, f2, t2, r2),
    ensures
        reset is Ok,
        r1.0 is Ok,
        r1.0 matches Ok(resp) ==> resp.token@ == session_token_of(
            s0.users.users@[j].id,
            (t1 + s0.config.session_ttl) as i64,
            s0.config.secret@,
        ),
        r2 == (Err::<LoginResponse, AuthError>(AuthError::InvalidPassword), None::<Mail>),
{
    assert(s1.users.users@[j].email@ == s0.users.users@[j].email@);
    lemma_find_email(s1.users.users@, s1.users.next_id, j);
}

} // verus!
