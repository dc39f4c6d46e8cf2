use blog_axum::jwt::TokenFailure;
use jsonwebtoken::errors::{Error, ErrorKind};
use blog_axum::{parse_expires_in, AppConfig, JwtConfig, JwtError, JwtService};

fn config(secret: &str, expires_in: &str) -> AppConfig {
    AppConfig {
        postgresql: Default::default(),
        jwt: JwtConfig {
            secret: secret.to_string(),
            expires_in: expires_in.to_string(),
        },
    }
}

#[test]
fn test_jwt_service_from_config() {
    let config = config("test-secret", "7d");

    let jwt_service = JwtService::from_config(&config);
    assert!(jwt_service.is_ok());
}

#[test]
fn test_generate_and_validate_token() {
    let config = config("test-secret", "1h");

    let jwt_service = JwtService::from_config(&config).unwrap();
    let token = jwt_service.generate_token("user123").unwrap();
    let claims = jwt_service.validate_token(&token).unwrap();

    assert_eq!(claims.sub, "user123");
    assert!(claims.exp > chrono::Utc::now().timestamp() as u64);
}

#[test]
fn test_parse_expires_in() {
    assert_eq!(parse_expires_in("30s").unwrap(), 30);
    assert_eq!(parse_expires_in("10m").unwrap(), 600);
    assert_eq!(parse_expires_in("2h").unwrap(), 7200);
    assert_eq!(parse_expires_in("7d").unwrap(), 604800);
    assert_eq!(parse_expires_in("1w").unwrap(), 604800);
}

#[test]
fn durations_take_either_case_and_zero() {
    assert_eq!(parse_expires_in("0s").unwrap(), 0);
    assert_eq!(parse_expires_in("3H").unwrap(), 10800);
    assert_eq!(parse_expires_in("2W").unwrap(), 1209600);
    assert_eq!(parse_expires_in("007m").unwrap(), 420);
    assert_eq!(parse_expires_in("5 d").unwrap(), 432000);
    assert_eq!(parse_expires_in("5d\n").unwrap(), 432000);
    assert_eq!(parse_expires_in("18446744073709551615s").unwrap(), u64::MAX);
}

#[test]
fn malformed_durations_are_config_errors() {
    for text in [
        "", "30", "s", "d7", "-5s", "+5s", " 5s", "5x", "5ms", "1h30m", "5.5h", "5 s s",
        "18446744073709551616s", "30500568904943664w",
    ] {
        assert!(
            matches!(parse_expires_in(text), Err(JwtError::ConfigError)),
            "{text:?} should be refused"
        );
    }
}

#[test]
fn empty_secret_is_refused() {
    assert!(matches!(JwtService::from_config(&config("", "7d")), Err(JwtError::ConfigError)));
}

#[test]
fn bad_lifetime_is_refused() {
    assert!(matches!(JwtService::from_config(&config("k", "7y")), Err(JwtError::ConfigError)));
    let service = JwtService::from_config(&config("k", "7d")).unwrap();
    assert_eq!(service.expires_in_seconds(), 604800);
}

#[test]
fn issued_token_validates_before_expiry() {
    let service = JwtService::from_config(&config("test-secret", "1h")).unwrap();
    let token = service.generate_token_at("user123", 1_000_000).unwrap();
    assert_eq!(token.split('.').count(), 3);
    assert_ne!(token, "user123");
    let claims = service.validate_token_at(&token, 1_000_000).unwrap();
    assert_eq!(claims.sub, "user123");
    assert_eq!(claims.exp, 1_003_600);
    let claims = service.validate_token_at(&token, 1_003_599).unwrap();
    assert_eq!(claims.exp, 1_003_600);
}

#[test]
fn issued_token_expires_at_its_expiry() {
    let service = JwtService::from_config(&config("test-secret", "1h")).unwrap();
    let token = service.generate_token_at("user123", 1_000_000).unwrap();
    assert!(matches!(service.validate_token_at(&token, 1_003_600), Err(JwtError::ExpiredToken)));
    assert!(matches!(service.validate_token_at(&token, 9_000_000), Err(JwtError::ExpiredToken)));
}

#[test]
fn zero_lifetime_token_is_expired_at_once() {
    let service = JwtService::from_config(&config("test-secret", "0s")).unwrap();
    let token = service.generate_token("user123").unwrap();
    assert!(matches!(service.validate_token(&token), Err(JwtError::ExpiredToken)));
}

#[test]
fn issuing_is_deterministic_for_a_fixed_clock() {
    let service = JwtService::from_config(&config("test-secret", "1h")).unwrap();
    let a = service.generate_token_at("alice", 42).unwrap();
    let b = service.generate_token_at("alice", 42).unwrap();
    let c = service.generate_token_at("bob", 42).unwrap();
    assert_eq!(a, b);
    assert_ne!(a, c);
}

#[test]
fn expiry_past_u64_is_refused() {
    let service = JwtService::from_config(&config("k", "1s")).unwrap();
    assert!(matches!(service.generate_token_at("u", u64::MAX), Err(JwtError::ConfigError)));
}

#[test]
fn any_changed_signature_character_is_invalid() {
    let service = JwtService::from_config(&config("test-secret", "1h")).unwrap();
    let token = service.generate_token_at("user123", 1_000_000).unwrap();
    let start = token.rfind('.').unwrap() + 1;
    for i in start..token.len() {
        let mut bytes = token.clone().into_bytes();
        bytes[i] = if bytes[i] == b'A' { b'B' } else { b'A' };
        let tampered = String::from_utf8(bytes).unwrap();
        assert!(
            matches!(service.validate_token_at(&tampered, 1_000_000), Err(JwtError::InvalidToken)),
            "changing signature byte {i} must make the token invalid"
        );
    }
}

#[test]
fn other_secret_or_garbage_is_invalid() {
    let service = JwtService::from_config(&config("test-secret", "1h")).unwrap();
    let other = JwtService::from_config(&config("other-secret", "1h")).unwrap();
    let token = other.generate_token_at("user123", 1_000_000).unwrap();
    assert!(matches!(service.validate_token_at(&token, 1_000_000), Err(JwtError::InvalidToken)));
    assert!(matches!(service.validate_token_at("not a token", 0), Err(JwtError::InvalidToken)));
    assert!(matches!(service.validate_token_at("a.b.c", 0), Err(JwtError::InvalidToken)));
}

#[test]
fn token_without_subject_is_invalid() {
    // Signed with the right secret, but its claims hold only an expiry.
    let claims = serde_json::Value::from_iter([("exp", serde_json::Value::from(2_000_000u64))]);
    let token = jsonwebtoken::encode(
        &jsonwebtoken::Header::default(),
        &claims,
        &jsonwebtoken::EncodingKey::from_secret(b"test-secret"),
    )
    .unwrap();
    let service = JwtService::from_config(&config("test-secret", "1h")).unwrap();
    assert!(matches!(service.validate_token_at(&token, 1_000_000), Err(JwtError::InvalidToken)));
}

#[test]
fn library_failures_map_to_error_kinds() {
    let e = || Error::from(ErrorKind::InvalidIssuer);
    for failure in [
        TokenFailure::InvalidToken,
        TokenFailure::InvalidSignature,
        TokenFailure::Base64,
        TokenFailure::Json,
        TokenFailure::Utf8,
    ] {
        assert!(matches!(JwtError::from_failure(failure, e()), JwtError::InvalidToken));
    }
    assert!(matches!(
        JwtError::from_failure(TokenFailure::Other, e()),
        JwtError::JsonWebTokenError(_)
    ));
}

#[test]
fn altered_payload_is_invalid() {
    let service = JwtService::from_config(&config("test-secret", "1h")).unwrap();
    let token = service.generate_token_at("user123", 1_000_000).unwrap();
    let other = service.generate_token_at("admin", 9_000_000).unwrap();
    let parts: Vec<&str> = token.split('.').collect();
    let other_parts: Vec<&str> = other.split('.').collect();
    let forged = format!("{}.{}.{}", parts[0], other_parts[1], parts[2]);
    assert!(matches!(service.validate_token_at(&forged, 1_000_000), Err(JwtError::InvalidToken)));
}

#[test]
fn token_from_another_library_setup_is_checked_the_same() {
    // A token that jsonwebtoken itself signs with the same secret is accepted.
    let claims = serde_json::Value::from_iter([
        ("sub", serde_json::Value::from("user9")),
        ("exp", serde_json::Value::from(5_000u64)),
    ]);
    let token = jsonwebtoken::encode(
        &jsonwebtoken::Header::default(),
        &claims,
        &jsonwebtoken::EncodingKey::from_secret(b"test-secret"),
    )
    .unwrap();
    let service = JwtService::from_config(&config("test-secret", "1h")).unwrap();
    let got = service.validate_token_at(&token, 4_999).unwrap();
    assert_eq!(got.sub, "user9");
    assert_eq!(got.exp, 5_000);
    assert!(matches!(service.validate_token_at(&token, 5_000), Err(JwtError::ExpiredToken)));
}

#[test]
fn jwt_error_messages() {
    assert_eq!(JwtError::InvalidToken.message(), "Invalid token");
    assert_eq!(JwtError::ExpiredToken.message(), "Expired token");
    assert_eq!(JwtError::ConfigError.message(), "JWT config error");
    let e = JwtError::JsonWebTokenError(Error::from(ErrorKind::InvalidIssuer));
    assert!(e.message().starts_with("JWT error: "));
}
