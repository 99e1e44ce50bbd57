use chat_backend::error::AppError;
use chat_backend::gate::{admit_connection_at, extract_bearer, AuthUser};
use chat_backend::token::{
    create_token_at, make_tokens_at, refresh_token_at, verify_token, verify_token_at, Claims, TokenSettings,
};

const SECRET: &str = "test-secret";
const USER: u128 = 0x67e55044_10b1_426f_9247_bb680e5fe0c8;
const USER_TEXT: &str = "67e55044-10b1-426f-9247-bb680e5fe0c8";
const NOW: i64 = 1_700_000_000;

fn settings() -> TokenSettings {
    TokenSettings { secret: SECRET.to_string(), access_ttl: 86_400, refresh_ttl: 604_800 }
}

#[test]
fn token_round_trip_before_expiry() {
    let t = create_token_at(USER, "alice", SECRET, 60, "access", NOW).ok().unwrap();
    assert_eq!(t.split('.').count(), 3);
    let c = verify_token_at(&t, SECRET, NOW).ok().unwrap();
    assert_eq!(c.sub, USER_TEXT);
    assert_eq!(c.username, "alice");
    assert_eq!(c.token_type, "access");
    assert_eq!(c.iat, NOW);
    assert_eq!(c.exp, NOW + 60);
    assert!(verify_token_at(&t, SECRET, NOW + 59).is_ok());
    assert_eq!(c.user_id().ok(), Some(USER));
}

#[test]
fn token_with_zero_ttl_is_refused() {
    let t = create_token_at(USER, "alice", SECRET, 0, "access", NOW).ok().unwrap();
    assert!(matches!(verify_token_at(&t, SECRET, NOW), Err(AppError::Unauthorized(_))));
}

#[test]
fn token_after_expiry_is_refused() {
    let t = create_token_at(USER, "alice", SECRET, 60, "access", NOW).ok().unwrap();
    assert!(matches!(verify_token_at(&t, SECRET, NOW + 60), Err(AppError::Unauthorized(_))));
    assert!(matches!(verify_token_at(&t, SECRET, NOW + 3600), Err(AppError::Unauthorized(m)) if m == "Invalid or expired token"));
}

#[test]
fn token_under_another_secret_or_tampered_is_refused() {
    let t = create_token_at(USER, "alice", SECRET, 60, "access", NOW).ok().unwrap();
    assert!(matches!(verify_token_at(&t, "other", NOW), Err(AppError::Unauthorized(_))));
    let mut bad = t.clone();
    bad.push('x');
    assert!(matches!(verify_token_at(&bad, SECRET, NOW), Err(AppError::Unauthorized(_))));
    assert!(matches!(verify_token_at("garbage", SECRET, NOW), Err(AppError::Unauthorized(_))));
}

#[test]
fn token_at_current_time_verifies() {
    let t = chat_backend::token::create_token(USER, "alice", SECRET, 3600, "access").ok().unwrap();
    assert_eq!(verify_token(&t, SECRET).ok().unwrap().username, "alice");
}

#[test]
fn token_expiry_overflow_is_internal() {
    assert!(matches!(create_token_at(USER, "alice", SECRET, i64::MAX, "access", NOW), Err(AppError::Internal(_))));
}

#[test]
fn claims_user_id_refuses_non_uuid() {
    let c = Claims { sub: "nope".to_string(), username: "a".to_string(), exp: 1, iat: 0, token_type: "access".to_string() };
    assert!(matches!(c.user_id(), Err(AppError::Unauthorized(_))));
}

#[test]
fn token_pair_kinds_and_lifetimes() {
    let p = make_tokens_at(USER, "alice", &settings(), NOW).ok().unwrap();
    assert_eq!(p.expires_at, 86_400);
    assert_eq!(p.refresh_expires, 604_800);
    let a = verify_token_at(&p.access_token, SECRET, NOW).ok().unwrap();
    let r = verify_token_at(&p.refresh_token, SECRET, NOW).ok().unwrap();
    assert_eq!(a.token_type, "access");
    assert_eq!(r.token_type, "refresh");
    assert_eq!(a.exp, NOW + 86_400);
    assert_eq!(r.exp, NOW + 604_800);
}

#[test]
fn refresh_needs_a_refresh_token() {
    let p = make_tokens_at(USER, "alice", &settings(), NOW).ok().unwrap();
    let fresh = refresh_token_at(&p.refresh_token, &settings(), NOW + 10).ok().unwrap();
    let a = verify_token_at(&fresh.access_token, SECRET, NOW + 10).ok().unwrap();
    assert_eq!(a.iat, NOW + 10);
    assert_eq!(a.sub, USER_TEXT);
    assert!(matches!(refresh_token_at(&p.access_token, &settings(), NOW), Err(AppError::Unauthorized(m)) if m == "Not a valid refresh token"));
}

#[test]
fn bearer_prefix_is_required() {
    assert_eq!(extract_bearer(Some("Bearer abc")).ok(), Some("abc"));
    assert!(matches!(extract_bearer(Some("Basic abc")), Err(AppError::Unauthorized(m)) if m == "Invalid auth header"));
    assert!(matches!(extract_bearer(Some("Bearer")), Err(AppError::Unauthorized(_))));
    assert!(matches!(extract_bearer(None), Err(AppError::Unauthorized(m)) if m == "Missing auth header"));
}

#[test]
fn gate_admits_access_tokens_only() {
    let p = make_tokens_at(USER, "alice", &settings(), NOW).ok().unwrap();
    let header = format!("Bearer {}", p.access_token);
    let user = AuthUser::from_header_at(Some(&header), SECRET, NOW).ok().unwrap();
    assert_eq!(user.cliams().username, "alice");
    let who = admit_connection_at(&header, SECRET, NOW).ok().unwrap();
    assert_eq!(who.user_id, USER);
    assert_eq!(who.username, "alice");
    let refresh = format!("Bearer {}", p.refresh_token);
    assert!(matches!(AuthUser::from_header_at(Some(&refresh), SECRET, NOW), Err(AppError::Unauthorized(m)) if m == "Not a valid access token"));
    assert!(matches!(admit_connection_at(&p.access_token, SECRET, NOW), Err(AppError::Unauthorized(_))));
    assert!(matches!(admit_connection_at(&header, SECRET, NOW + 86_400), Err(AppError::Unauthorized(_))));
}
