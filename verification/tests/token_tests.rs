use backend::errors::AuthError;
use backend::token::{TokenCodec, TOKEN_LIFETIME_SECS};

fn codec() -> TokenCodec {
    TokenCodec::new(b"test-secret".to_vec())
}

#[test]
fn test_round_trip() {
    let c = codec();
    let now: i64 = 1_000_000;
    let token = c.create_token_at(1, "alice", false, now).unwrap();
    let claims = c.validate_token_at(&token, now).unwrap();
    assert_eq!(claims.sub, 1);
    assert_eq!(claims.username, "alice");
    assert!(!claims.is_admin);
    assert_eq!(claims.exp, now + TOKEN_LIFETIME_SECS);
    assert_eq!(TOKEN_LIFETIME_SECS, 7 * 24 * 60 * 60);
}

#[test]
fn test_round_trip_admin() {
    let c = codec();
    let now: i64 = 42;
    let token = c.create_token_at(2, "root", true, now).unwrap();
    let claims = c.validate_token_at(&token, now).unwrap();
    assert_eq!(claims.sub, 2);
    assert_eq!(claims.username, "root");
    assert!(claims.is_admin);
    assert_eq!(claims.exp, now + TOKEN_LIFETIME_SECS);
}

#[test]
fn test_round_trip_clock() {
    let c = codec();
    let token = c.create_token(5, "carol", false).unwrap();
    let claims = c.validate_token(&token).unwrap();
    assert_eq!(claims.sub, 5);
    assert_eq!(claims.username, "carol");
    assert!(!claims.is_admin);
}

#[test]
fn test_expiry_boundary() {
    let c = codec();
    let issued: i64 = 1_000_000;
    let exp = issued + TOKEN_LIFETIME_SECS;
    let token = c.create_token_at(1, "alice", false, issued).unwrap();
    // One second before expiry: still valid.
    assert!(c.validate_token_at(&token, exp - 1).is_ok());
    // At and after expiry: rejected.
    assert!(matches!(c.validate_token_at(&token, exp), Err(AuthError::InvalidCredential)));
    assert!(matches!(c.validate_token_at(&token, exp + 1), Err(AuthError::InvalidCredential)));
    assert!(matches!(
        c.validate_token_at(&token, exp + 1_000_000),
        Err(AuthError::InvalidCredential)
    ));
}

#[test]
fn test_tamper_detection() {
    let c = codec();
    let now: i64 = 1_000_000;
    let token = c.create_token_at(9, "mallory", false, now).unwrap();
    assert!(c.validate_token_at(&token, now).is_ok());
    let bytes = token.as_bytes();
    for i in 0..bytes.len() {
        let mut flipped = bytes.to_vec();
        flipped[i] ^= 1;
        let tampered = String::from_utf8(flipped).unwrap();
        assert!(
            matches!(c.validate_token_at(&tampered, now), Err(AuthError::InvalidCredential)),
            "tampering byte {} went undetected",
            i
        );
    }
}

#[test]
fn test_wrong_secret_rejected() {
    let now: i64 = 1_000_000;
    let token = codec().create_token_at(1, "alice", false, now).unwrap();
    let other = TokenCodec::new(b"another-secret".to_vec());
    assert!(matches!(other.validate_token_at(&token, now), Err(AuthError::InvalidCredential)));
}

#[test]
fn test_malformed_token_rejected() {
    let c = codec();
    assert!(matches!(c.validate_token_at("", 0), Err(AuthError::InvalidCredential)));
    assert!(matches!(c.validate_token_at("not-a-token", 0), Err(AuthError::InvalidCredential)));
    assert!(matches!(c.validate_token_at("a.b.c", 0), Err(AuthError::InvalidCredential)));
    assert_eq!(AuthError::InvalidCredential.status_code(), 401);
}

#[test]
fn test_unrepresentable_expiry_is_encoding_error() {
    let c = codec();
    let r = c.create_token_at(1, "alice", false, i64::MAX);
    assert_eq!(r, Err(AuthError::EncodingError));
    assert_eq!(AuthError::EncodingError.status_code(), 500);
}

#[test]
fn test_missing_secret_is_configuration_error() {
    let r = TokenCodec::from_config(None);
    assert!(matches!(r, Err(AuthError::ConfigurationError)));
    assert_eq!(AuthError::ConfigurationError.status_code(), 500);
}

#[test]
fn test_denial_bodies_are_generic() {
    // Both authentication failures share one body; the authorization failure
    // has its own; neither says anything about the cause.
    assert_eq!(AuthError::Unauthenticated.message(), "Invalid token");
    assert_eq!(AuthError::InvalidCredential.message(), "Invalid token");
    assert_eq!(AuthError::Forbidden.message(), "Insufficient permissions");
}

#[test]
fn test_from_config_with_secret() {
    let c = TokenCodec::from_config(Some(b"boot-secret".to_vec())).unwrap();
    let now: i64 = 10;
    let token = c.create_token_at(3, "bob", true, now).unwrap();
    let claims = c.validate_token_at(&token, now).unwrap();
    assert_eq!(claims.sub, 3);
    assert!(claims.is_admin);
}
