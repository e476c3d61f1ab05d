use storefront_auth::config::AuthConfig;
use storefront_auth::error::AuthError;
use storefront_auth::model::{
    ForgetPasswordData, Mail, ResetPasswordRequest, Role, UpdateUser, UserRegistationData,
    VerifyOutcome, VerifyToken,
};
use storefront_auth::pagination::PaginationParams;
use storefront_auth::service::AuthService;

fn service() -> AuthService {
    let mut config = AuthConfig::new(b"test-secret".to_vec(), "https://shop.example".to_string());
    config.hash_cost = 4;
    AuthService::new(config)
}

fn registration(email: &str, password: &str) -> UserRegistationData {
    UserRegistationData {
        full_name: "Asha Rao".to_string(),
        email: email.to_string(),
        password: password.to_string(),
    }
}

fn verification_token(mail: &Mail) -> String {
    match mail {
        Mail::Verification { token, .. } => token.clone(),
        _ => panic!("expected a verification mail"),
    }
}

fn signed_up_and_verified(s: &mut AuthService, email: &str, password: &str) -> i32 {
    let mail = s.sign_up(&registration(email, password)).unwrap();
    let token = verification_token(&mail);
    assert!(matches!(s.verify_email(&VerifyToken { token }), Ok(VerifyOutcome::Verified(_))));
    s.users.users.last().unwrap().id
}

#[test]
fn sign_up_then_login_requires_verification() {
    let mut s = service();
    let data = registration("asha@example.com", "hunter22");
    let mail = s.sign_up(&data).unwrap();
    let token = verification_token(&mail);
    assert_eq!(token.len(), 36);
    match &mail {
        Mail::Verification { to, full_name, .. } => {
            assert_eq!(to, "asha@example.com");
            assert_eq!(full_name, "Asha Rao");
        }
        _ => panic!("expected a verification mail"),
    }
    assert_eq!(s.users.users.len(), 1);
    assert!(!s.users.users[0].is_verified);
    assert_eq!(s.users.users[0].role, Role::User);
    assert_ne!(s.users.users[0].password_hash, "hunter22");

    let (first, resend) = s.login(&data);
    assert_eq!(first.err(), Some(AuthError::AccountNotVerified));
    let resent = verification_token(&resend.unwrap());
    assert_ne!(resent, token);
    assert_eq!(s.verifications.records.len(), 2);

    let outcome = s.verify_email(&VerifyToken { token: token.clone() }).unwrap();
    match outcome {
        VerifyOutcome::Verified(Mail::Welcome { to, .. }) => assert_eq!(to, "asha@example.com"),
        _ => panic!("expected a welcome mail"),
    }
    assert!(s.users.users[0].is_verified);

    let (second, no_mail) = s.login(&data);
    assert!(no_mail.is_none());
    let response = second.unwrap();
    assert_eq!(response.email, "asha@example.com");
    assert_eq!(response.full_name, "Asha Rao");
    let ctx = s.require_authentication(Some(response.token.as_str())).unwrap();
    assert_eq!(ctx.user.id, s.users.users[0].id);
}

#[test]
fn verify_email_twice_is_idempotent() {
    let mut s = service();
    let mail = s.sign_up(&registration("ravi@example.com", "pw-123456")).unwrap();
    let token = verification_token(&mail);
    let first = s.verify_email_at(&VerifyToken { token: token.clone() }, 1_000);
    assert!(matches!(first, Ok(VerifyOutcome::Verified(_))));
    let second = s.verify_email_at(&VerifyToken { token }, 1_001);
    assert!(matches!(second, Ok(VerifyOutcome::AlreadyVerified)));
    assert!(s.users.users[0].is_verified);
}

#[test]
fn verify_email_unknown_and_expired_tokens() {
    let mut s = service();
    let data = registration("mei@example.com", "pw-abcdef");
    let mail = s
        .sign_up_with(&data, "hash".to_string(), "uuid-1".to_string(), "tok-1".to_string(), 5_000)
        .unwrap();
    assert_eq!(verification_token(&mail), "tok-1");
    assert_eq!(s.verifications.records[0].expires_at, 5_000 + 86_400);
    let unknown = s.verify_email_at(&VerifyToken { token: "nope".to_string() }, 5_000);
    assert_eq!(unknown.err(), Some(AuthError::InvalidToken));
    let at_expiry = s.verify_email_at(&VerifyToken { token: "tok-1".to_string() }, 5_000 + 86_400);
    assert!(matches!(at_expiry, Ok(VerifyOutcome::Verified(_))));
    let mut t = service();
    t.sign_up_with(&data, "hash".to_string(), "uuid-1".to_string(), "tok-1".to_string(), 5_000)
        .unwrap();
    let late = t.verify_email_at(&VerifyToken { token: "tok-1".to_string() }, 5_000 + 86_401);
    assert_eq!(late.err(), Some(AuthError::TokenExpired));
    assert!(!t.users.users[0].is_verified);
}

#[test]
fn sign_up_with_collision_and_overflow_fail_internally() {
    let mut s = service();
    let a = registration("a@example.com", "pw");
    let b = registration("b@example.com", "pw");
    s.sign_up_with(&a, "h".to_string(), "u".to_string(), "same".to_string(), 0).unwrap();
    let clash = s.sign_up_with(&b, "h".to_string(), "u".to_string(), "same".to_string(), 0);
    assert_eq!(clash.err(), Some(AuthError::Internal));
    let overflow = s.sign_up_with(&b, "h".to_string(), "u".to_string(), "other".to_string(), i64::MAX);
    assert_eq!(overflow.err(), Some(AuthError::Internal));
    assert_eq!(s.users.users.len(), 1);
    assert_eq!(s.verifications.records.len(), 1);
}

#[test]
fn duplicate_email_sign_up_is_refused() {
    let mut s = service();
    s.sign_up(&registration("dup@example.com", "first-pw")).unwrap();
    let again = s.sign_up(&UserRegistationData {
        full_name: "Someone Else".to_string(),
        email: "dup@example.com".to_string(),
        password: "second-pw".to_string(),
    });
    assert_eq!(again.err(), Some(AuthError::DuplicateEmail));
    assert_eq!(s.users.users.len(), 1);
    assert_eq!(s.verifications.records.len(), 1);
    assert_eq!(s.users.next_id, 2);
}

#[test]
fn wrong_password_never_locks_the_account() {
    let mut s = service();
    signed_up_and_verified(&mut s, "kim@example.com", "right-password");
    let wrong = registration("kim@example.com", "wrong-password");
    for _ in 0..3 {
        let (r, mail) = s.login(&wrong);
        assert_eq!(r.err(), Some(AuthError::InvalidPassword));
        assert!(mail.is_none());
    }
    let (r, _) = s.login(&registration("kim@example.com", "right-password"));
    assert!(r.is_ok());
}

#[test]
fn login_of_unknown_email_fails() {
    let mut s = service();
    let (r, mail) = s.login(&registration("ghost@example.com", "pw"));
    assert_eq!(r.err(), Some(AuthError::UserNotFound));
    assert!(mail.is_none());
}

#[test]
fn forgot_password_issues_reset_link() {
    let mut s = service();
    signed_up_and_verified(&mut s, "lee@example.com", "old-password");
    let mail = s
        .forget_password_at(&ForgetPasswordData { email: "lee@example.com".to_string() }, "r-1".to_string(), 100)
        .unwrap();
    match mail {
        Mail::PasswordReset { to, link, .. } => {
            assert_eq!(to, "lee@example.com");
            assert_eq!(link, "https://shop.example/reset-password?token=r-1");
        }
        _ => panic!("expected a reset mail"),
    }
    assert_eq!(s.resets.records[0].expires_at, 100 + 3_600);
    let missing = s.forget_password(&ForgetPasswordData { email: "x@example.com".to_string() });
    assert_eq!(missing.err(), Some(AuthError::UserNotFound));
}

#[test]
fn forgot_password_of_unverified_account_fails() {
    let mut s = service();
    s.sign_up(&registration("new@example.com", "pw-123")).unwrap();
    let r = s.forget_password(&ForgetPasswordData { email: "new@example.com".to_string() });
    assert_eq!(r.err(), Some(AuthError::UserNotVerified));
    assert!(s.resets.records.is_empty());
}

#[test]
fn reset_password_replaces_hash_once() {
    let mut s = service();
    signed_up_and_verified(&mut s, "zoe@example.com", "old-password");
    let mail = s.forget_password(&ForgetPasswordData { email: "zoe@example.com".to_string() }).unwrap();
    let link = match mail {
        Mail::PasswordReset { link, .. } => link,
        _ => panic!("expected a reset mail"),
    };
    let token = link.rsplit('=').next().unwrap().to_string();
    let request = ResetPasswordRequest { token, new_password: "new-password".to_string() };
    s.reset_password(&request).unwrap();
    assert!(s.resets.records.is_empty());
    let replay = s.reset_password(&request);
    assert_eq!(replay.err(), Some(AuthError::InvalidToken));
    let (old_login, _) = s.login(&registration("zoe@example.com", "old-password"));
    assert_eq!(old_login.err(), Some(AuthError::InvalidPassword));
    let (new_login, _) = s.login(&registration("zoe@example.com", "new-password"));
    assert!(new_login.is_ok());
}

#[test]
fn expired_and_unknown_reset_tokens_are_refused() {
    let mut s = service();
    signed_up_and_verified(&mut s, "ann@example.com", "pw-000000");
    s.forget_password_at(&ForgetPasswordData { email: "ann@example.com".to_string() }, "r-9".to_string(), 1_000)
        .unwrap();
    let request = ResetPasswordRequest { token: "r-9".to_string(), new_password: "x".to_string() };
    let late = s.reset_password_with(&request, "new-hash".to_string(), 1_000 + 3_601);
    assert_eq!(late.err(), Some(AuthError::TokenExpired));
    assert_eq!(s.resets.records.len(), 1);
    let unknown = ResetPasswordRequest {
        token: "6f1c2a9e-0000-4000-8000-000000000000".to_string(),
        new_password: "x".to_string(),
    };
    assert_eq!(s.reset_password(&unknown).err(), Some(AuthError::InvalidToken));
    assert_eq!(s.reset_password_with(&request, "new-hash".to_string(), 1_000 + 3_600), Ok(()));
    assert_eq!(s.users.users[0].password_hash, "new-hash");
}

#[test]
fn admin_gate_forbids_regular_users() {
    let mut s = service();
    let id = signed_up_and_verified(&mut s, "user@example.com", "pw-user-1");
    let (r, _) = s.login(&registration("user@example.com", "pw-user-1"));
    let token = r.unwrap().token;
    let denied = s.require_admin(Some(token.as_str()));
    assert_eq!(denied.err(), Some(AuthError::Forbidden));
    assert!(s.require_authentication(Some(token.as_str())).is_ok());
    s.grant_role(id, Role::Admin).unwrap();
    let allowed = s.require_admin(Some(token.as_str())).unwrap();
    assert_eq!(allowed.user.id, id);
    assert_eq!(allowed.user.role, Role::Admin);
    assert_eq!(s.grant_role(999, Role::Admin).err(), Some(AuthError::UserNotFound));
}

#[test]
fn middleware_refuses_missing_and_bad_tokens() {
    let s = service();
    assert_eq!(s.require_authentication(None).err(), Some(AuthError::Unauthenticated));
    assert_eq!(s.require_admin(None).err(), Some(AuthError::Unauthenticated));
    let bad = s.require_authentication(Some("not-a-token"));
    assert!(matches!(bad, Err(AuthError::Session(_))));
}

#[test]
fn session_of_missing_user_is_unauthenticated() {
    let s = service();
    let token = storefront_auth::session::create_token(&s.config, 42, 0).unwrap();
    assert_eq!(s.authenticate_at(Some(token.as_str()), 10).err(), Some(AuthError::Unauthenticated));
    assert_eq!(s.authorize_admin_at(Some(token.as_str()), 10).err(), Some(AuthError::Unauthenticated));
}

#[test]
fn update_user_applies_given_fields() {
    let mut s = service();
    let a = signed_up_and_verified(&mut s, "a@example.com", "pw-aaaaaa");
    signed_up_and_verified(&mut s, "b@example.com", "pw-bbbbbb");
    let clash = UpdateUser {
        fullname: None,
        email_id: Some("b@example.com".to_string()),
        profile_pic: None,
        github_link: None,
        linkdin_link: None,
        is_verdified: None,
    };
    assert_eq!(s.update_user(a, &clash).err(), Some(AuthError::DuplicateEmail));
    let change = UpdateUser {
        fullname: Some("Alice A.".to_string()),
        email_id: Some("a@example.com".to_string()),
        profile_pic: None,
        github_link: Some("https://github.com/alice".to_string()),
        linkdin_link: None,
        is_verdified: Some(false),
    };
    let u = s.update_user(a, &change).unwrap();
    assert_eq!(u.full_name, "Alice A.");
    assert_eq!(u.email, "a@example.com");
    assert_eq!(u.github_link.as_deref(), Some("https://github.com/alice"));
    assert_eq!(u.profile_pic, None);
    assert!(!u.is_verified);
    assert_eq!(s.get_user_by_id(a).unwrap().full_name, "Alice A.");
    assert_eq!(s.get_user_by_id(77).err(), Some(AuthError::UserNotFound));
    assert_eq!(s.update_user(77, &change).err(), Some(AuthError::UserNotFound));
}

#[test]
fn get_all_users_by_page() {
    let mut s = service();
    for k in 0..5 {
        let data = registration(&format!("u{k}@example.com"), "pw");
        s.sign_up_with(&data, "h".to_string(), "u".to_string(), format!("t{k}"), 0).unwrap();
    }
    let second = PaginationParams { page: Some(2), page_size: Some(2) };
    let page = s.get_all_users(&second).unwrap();
    let emails: Vec<&str> = page.iter().map(|u| u.email.as_str()).collect();
    assert_eq!(emails, vec!["u2@example.com", "u3@example.com"]);
    let last = PaginationParams { page: Some(3), page_size: Some(2) };
    assert_eq!(s.get_all_users(&last).unwrap().len(), 1);
    let beyond = PaginationParams { page: Some(4), page_size: Some(2) };
    assert_eq!(s.get_all_users(&beyond).err(), Some(AuthError::PageOutOfRange));
    let all = PaginationParams { page: None, page_size: None };
    assert_eq!(s.get_all_users(&all).unwrap().len(), 5);
}

#[test]
fn deleting_a_user_removes_its_tokens_and_sessions() {
    let mut s = service();
    let gone = signed_up_and_verified(&mut s, "gone@example.com", "pw-gone-1");
    let kept = signed_up_and_verified(&mut s, "kept@example.com", "pw-kept-1");
    s.forget_password(&ForgetPasswordData { email: "gone@example.com".to_string() }).unwrap();
    s.forget_password(&ForgetPasswordData { email: "kept@example.com".to_string() }).unwrap();
    let (r, _) = s.login(&registration("gone@example.com", "pw-gone-1"));
    let token = r.unwrap().token;
    assert!(s.require_authentication(Some(token.as_str())).is_ok());

    assert_eq!(s.delete_user(gone), Ok(()));
    assert_eq!(s.users.users.len(), 1);
    assert!(s.verifications.records.iter().all(|t| t.user_id == kept));
    assert_eq!(s.verifications.records.len(), 1);
    assert_eq!(s.resets.records.len(), 1);
    assert_eq!(s.resets.records[0].user_id, kept);
    assert_eq!(s.require_authentication(Some(token.as_str())).err(), Some(AuthError::Unauthenticated));
    assert_eq!(s.delete_user(gone).err(), Some(AuthError::UserNotFound));
}

#[test]
fn verification_token_cannot_reset_a_password() {
    let mut s = service();
    let mail = s.sign_up(&registration("eve@example.com", "pw-eve-01")).unwrap();
    let token = verification_token(&mail);
    let request = ResetPasswordRequest { token, new_password: "taken-over".to_string() };
    assert_eq!(s.reset_password(&request).err(), Some(AuthError::InvalidToken));
    assert!(s.users.users[0].password_hash != "taken-over");
}

#[test]
fn forged_session_tokens_are_refused_everywhere() {
    let mut s = service();
    let id = signed_up_and_verified(&mut s, "root@example.com", "pw-root-1");
    s.grant_role(id, Role::Admin).unwrap();
    let mut other = AuthConfig::new(b"another-secret".to_vec(), "https://x".to_string());
    other.hash_cost = 4;
    let forged = storefront_auth::session::create_token(&other, id, 0).unwrap();
    let r = s.require_admin(Some(forged.as_str()));
    assert_eq!(r.err(), Some(AuthError::Session(storefront_auth::error::SessionError::InvalidToken)));
    let r = s.require_authentication(Some(forged.as_str()));
    assert_eq!(r.err(), Some(AuthError::Session(storefront_auth::error::SessionError::InvalidToken)));
}
