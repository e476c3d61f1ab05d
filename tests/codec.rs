use storefront_auth::config::{expiry_after, AuthConfig, RESET_TTL_SECS, SESSION_TTL_SECS};
use storefront_auth::error::{AuthError, ErrorKind, SessionError};
use storefront_auth::pagination::{PageWindow, PaginationParams};
use storefront_auth::password::{hash_password, verify_password};
use storefront_auth::session::{check_claims, create_token, validate_token, SessionClaims};

fn config(secret: &[u8]) -> AuthConfig {
    AuthConfig::new(secret.to_vec(), "https://shop.example".to_string())
}

#[test]
fn session_token_round_trip_and_expiry() {
    let c = config(b"k1");
    let token = create_token(&c, 7, 1_000).unwrap();
    assert_eq!(validate_token(&c, &token, 1_000), Ok(7));
    assert_eq!(validate_token(&c, &token, 1_000 + SESSION_TTL_SECS), Ok(7));
    assert_eq!(
        validate_token(&c, &token, 1_000 + SESSION_TTL_SECS + 1),
        Err(SessionError::ExpiredToken)
    );
}

#[test]
fn session_token_from_other_secret_is_invalid() {
    let token = create_token(&config(b"k1"), 7, 0).unwrap();
    assert_eq!(validate_token(&config(b"k2"), &token, 0), Err(SessionError::InvalidToken));
    assert_eq!(validate_token(&config(b"k1"), "garbage", 0), Err(SessionError::InvalidToken));
    let mut tampered = token.clone();
    tampered.push('x');
    assert_eq!(validate_token(&config(b"k1"), &tampered, 0), Err(SessionError::InvalidToken));
}

#[test]
fn create_token_overflow_is_internal() {
    assert_eq!(create_token(&config(b"k"), 1, i64::MAX).err(), Some(AuthError::Internal));
}

#[test]
fn claims_are_checked_in_order() {
    let no_exp = SessionClaims { user_id: Some(1), expires_at: None };
    assert_eq!(check_claims(&no_exp, 0), Err(SessionError::InvalidToken));
    let expired = SessionClaims { user_id: None, expires_at: Some(10) };
    assert_eq!(check_claims(&expired, 11), Err(SessionError::ExpiredToken));
    assert_eq!(check_claims(&expired, 10), Err(SessionError::Malformed));
    let too_big = SessionClaims { user_id: Some(i32::MAX as i64 + 1), expires_at: Some(10) };
    assert_eq!(check_claims(&too_big, 0), Err(SessionError::Malformed));
    let good = SessionClaims { user_id: Some(-3), expires_at: Some(10) };
    assert_eq!(check_claims(&good, 10), Ok(-3));
}

#[test]
fn password_hash_round_trip() {
    let h = hash_password("s3cret", 4).unwrap();
    assert_ne!(h, "s3cret");
    assert!(h.starts_with("$2"));
    assert!(verify_password("s3cret", &h));
    assert!(!verify_password("S3cret", &h));
    assert!(!verify_password("s3cret", "not-a-hash"));
    assert_eq!(hash_password("s3cret", 3), Err(AuthError::Internal));
    assert_eq!(hash_password("s3cret", 32), Err(AuthError::Internal));
}

#[test]
fn error_kinds_and_status_codes() {
    let cases = [
        (AuthError::Unauthenticated, ErrorKind::Unauthenticated, 401),
        (AuthError::Session(SessionError::InvalidToken), ErrorKind::Unauthenticated, 401),
        (AuthError::Session(SessionError::ExpiredToken), ErrorKind::Unauthenticated, 401),
        (AuthError::Session(SessionError::Malformed), ErrorKind::Unauthenticated, 401),
        (AuthError::Forbidden, ErrorKind::Forbidden, 403),
        (AuthError::InvalidToken, ErrorKind::NotFound, 404),
        (AuthError::UserNotFound, ErrorKind::NotFound, 404),
        (AuthError::TokenExpired, ErrorKind::BadRequest, 400),
        (AuthError::DuplicateEmail, ErrorKind::BadRequest, 400),
        (AuthError::AccountNotVerified, ErrorKind::BadRequest, 400),
        (AuthError::UserNotVerified, ErrorKind::BadRequest, 400),
        (AuthError::InvalidPassword, ErrorKind::BadRequest, 400),
        (AuthError::PageOutOfRange, ErrorKind::BadRequest, 400),
        (AuthError::Internal, ErrorKind::Internal, 500),
    ];
    for (e, kind, code) in cases {
        assert_eq!(e.kind(), kind);
        assert_eq!(e.status_code(), code);
        assert!(!e.message().is_empty());
    }
}

#[test]
fn expiry_after_bounds() {
    assert_eq!(expiry_after(100, RESET_TTL_SECS), Some(3_700));
    assert_eq!(expiry_after(i64::MAX - 5, 5), Some(i64::MAX));
    assert_eq!(expiry_after(i64::MAX - 5, 6), None);
}

#[test]
fn pagination_windows() {
    let defaults = PaginationParams { page: None, page_size: None };
    assert_eq!(defaults.window(25), Ok(PageWindow { index: 0, offset: 0, limit: 10 }));
    let third = PaginationParams { page: Some(3), page_size: Some(10) };
    assert_eq!(third.window(25), Ok(PageWindow { index: 2, offset: 20, limit: 10 }));
    assert_eq!(third.window(20), Err(AuthError::PageOutOfRange));
    assert_eq!(defaults.window(0), Err(AuthError::PageOutOfRange));
    let zero_page = PaginationParams { page: Some(0), page_size: Some(5) };
    assert_eq!(zero_page.window(50), Err(AuthError::PageOutOfRange));
    let zero_size = PaginationParams { page: Some(1), page_size: Some(0) };
    assert_eq!(zero_size.window(50), Err(AuthError::PageOutOfRange));
    let last = PaginationParams { page: Some(u64::MAX), page_size: Some(1) };
    assert_eq!(
        last.window(u64::MAX),
        Ok(PageWindow { index: u64::MAX - 1, offset: u64::MAX - 1, limit: 1 })
    );
}
