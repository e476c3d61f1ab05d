//! Session tokens: signed, self-contained credentials naming a user id and an
//! expiry, issued at login and checked on every authenticated request.

use std::collections::BTreeMap;

use jsonwebtoken::errors::ErrorKind as JwtErrorKind;
use jsonwebtoken::{Algorithm, DecodingKey, EncodingKey, Header, Validation};
use vstd::prelude::*;

use crate::config::{expiry_after, AuthConfig};
use crate::error::{AuthError, SessionError};

verus! {

/// The session token that signs the claims `{"exp": expires_at, "id": user_id}`
/// with `secret` (HS256). It depends on these three values alone.
pub uninterp spec fn session_token_of(user_id: i32, expires_at: i64, secret: Seq<u8>) -> Seq<char>;

/// Whether `token` carries a valid HS256 signature under `secret`, as
/// jsonwebtoken's signature check decides it.
pub uninterp spec fn hs256_signed(token: Seq<char>, secret: Seq<u8>) -> bool;

/// The claims read back from a correctly signed session token.
#[derive(Clone, Copy, Debug, PartialEq, Eq, Structural)]
pub struct SessionClaims {
    /// The `id` claim, if present.
    pub user_id: Option<i64>,
    /// The `exp` claim, if present.
    pub expires_at: Option<i64>,
}

/// Relies on jsonwebtoken::encode with the default (HS256) header: signs the
/// two integer claims with the secret. With an HMAC key and an HMAC algorithm,
/// and claims that serialise as integers, it does not fail; its result passes
/// the HS256 signature check under the same secret.
#[verifier::external_body]
fn jwt_encode(user_id: i32, expires_at: i64, secret: &[u8]) -> (r: Option<String>)
    ensures
        r is Some,
        r matches Some(t) ==> t@ == session_token_of(user_id, expires_at, secret@),
        r matches Some(t) ==> hs256_signed(t@, secret@),
{
    let mut claims: BTreeMap<&str, i64> = BTreeMap::new();
    claims.insert("exp", expires_at);
    claims.insert("id", user_id as i64);
    jsonwebtoken::encode(&Header::default(), &claims, &EncodingKey::from_secret(secret)).ok()
}

/// Relies on jsonwebtoken::decode, with the HS256 signature checked and no
/// claim required or checked against the clock: a token that encode made with
/// the same secret yields its claims back. A claim that is not an integer is
/// reported as `Malformed`, every other refusal as `InvalidToken`; a token
/// that fails the signature check is refused.
#[verifier::external_body]
fn jwt_decode(token: &str, secret: &[u8]) -> (r: Result<SessionClaims, SessionError>)
    ensures
        r is Ok ==> hs256_signed(token@, secret@),
        forall|id: i32, exp: i64| #[trigger] session_token_of(id, exp, secret@) == token@ ==> r == minted_claims(id, exp),
{
    let mut v = Validation::new(Algorithm::HS256);
    v.validate_exp = false;
    v.validate_aud = false;
    v.required_spec_claims.clear();
    match jsonwebtoken::decode::<BTreeMap<String, i64>>(token, &DecodingKey::from_secret(secret), &v) {
        Ok(d) => Ok(SessionClaims { user_id: d.claims.get("id").copied(), expires_at: d.claims.get("exp").copied() }),
        Err(e) if matches!(e.kind(), JwtErrorKind::Json(_)) => Err(SessionError::Malformed),
        Err(_) => Err(SessionError::InvalidToken),
    }
}

/// The claims of a session token minted for `user_id`, expiring at `expires_at`.
pub open spec fn minted_claims(user_id: i32, expires_at: i64) -> Result<SessionClaims, SessionError> {
    Ok(SessionClaims { user_id: Some(user_id as i64), expires_at: Some(expires_at) })
}

/// What a session token with these claims means at time `now`.
pub open spec fn claims_outcome(claims: SessionClaims, now: i64) -> Result<i32, SessionError> {
    match claims.expires_at {
        None => Err(SessionError::InvalidToken),
        Some(exp) => if now > exp {
            Err(SessionError::ExpiredToken)
        } else {
            match claims.user_id {
                Some(id) => if i32::MIN <= id <= i32::MAX {
                    Ok(id as i32)
                } else {
                    Err(SessionError::Malformed)
                },
                None => Err(SessionError::Malformed),
            }
        },
    }
}

/// What a session token minted for `user_id`, expiring at `expires_at`, means
/// at time `now`.
pub open spec fn minted_outcome(user_id: i32, expires_at: i64, now: i64) -> Result<i32, SessionError> {
    if now > expires_at {
        Err(SessionError::ExpiredToken)
    } else {
        Ok(user_id)
    }
}

/// Interprets decoded claims at time `now`: a token without an expiry is
/// invalid, one past its expiry has expired, and one whose `id` is missing or
/// not a user id is malformed.
pub fn check_claims(claims: &SessionClaims, now: i64) -> (r: Result<i32, SessionError>)
    ensures
        r == claims_outcome(*claims, now),
{
    match claims.expires_at {
        None => Err(SessionError::InvalidToken),
        Some(exp) => {
            if now > exp {
                Err(SessionError::ExpiredToken)
            } else {
                match claims.user_id {
                    Some(id) => {
                        if i32::MIN as i64 <= id && id <= i32::MAX as i64 {
                            Ok(id as i32)
                        } else {
                            Err(SessionError::Malformed)
                        }
                    },
                    None => Err(SessionError::Malformed),
                }
            }
        },
    }
}

/// Mints the session token of `user_id` at time `now`; it expires after the
/// configured session lifetime.
pub fn create_token(config: &AuthConfig, user_id: i32, now: i64) -> (r: Result<String, AuthError>)
    requires
        config.wf(),
    ensures
        r matches Ok(t) ==> now + config.session_ttl <= i64::MAX && t@ == session_token_of(
            user_id,
            (now + config.session_ttl) as i64,
            config.secret@,
        ),
        r is Err ==> r == Err::<String, AuthError>(AuthError::Internal),
        now + config.session_ttl > i64::MAX ==> r is Err,
        now + config.session_ttl <= i64::MAX ==> r is Ok,
{
    let exp = match expiry_after(now, config.session_ttl) {
        Some(e) => e,
        None => return Err(AuthError::Internal),
    };
    match jwt_encode(user_id, exp, config.secret.as_slice()) {
        Some(t) => Ok(t),
        None => Err(AuthError::Internal),
    }
}

/// Resolves a session token to the user id it carries, at time `now`. A token
/// minted by `create_token` with the same secret gives back its user id until
/// its expiry and `ExpiredToken` after it; a token without a valid signature
/// under the secret is refused.
pub fn validate_token(config: &AuthConfig, token: &str, now: i64) -> (r: Result<i32, SessionError>)
    ensures
        !hs256_signed(token@, config.secret@) ==> r is Err,
        forall|id: i32, exp: i64|
            #[trigger] session_token_of(id, exp, config.secret@) == token@ ==> r == minted_outcome(
                id,
                exp,
                now,
            ),
{
    match jwt_decode(token, config.secret.as_slice()) {
        Ok(claims) => check_claims(&claims, now),
        Err(e) => Err(e),
    }
}

} // verus!
