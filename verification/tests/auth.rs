use valdraegorn::api::auth::{bearer_token, AuthClaims, AuthRejection};
use valdraegorn::auth::jwt::{claims_for, identity_from_claims, JwtTokenService, TokenKind};
use valdraegorn::auth::password::Argon2PasswordHasher;
use valdraegorn::errors::DomainError;
use valdraegorn::ids::{parse_uuid, uuid_to_string};

const USER: u128 = 0x550e8400e29b41d4a716446655440000;
const TENANT: u128 = 0x0123456789abcdef0123456789abcdef;

#[test]
fn uuid_text_is_hyphenated_lowercase() {
    assert_eq!(uuid_to_string(USER), "550e8400-e29b-41d4-a716-446655440000");
    assert_eq!(uuid_to_string(0), "00000000-0000-0000-0000-000000000000");
    assert_eq!(parse_uuid("550e8400-e29b-41d4-a716-446655440000"), Some(USER));
    assert_eq!(parse_uuid("not-a-uuid"), None);
}

#[test]
fn token_carries_claims_in_field_order() {
    let jwt = service();
    let token = jwt.create_token_at(USER, TENANT, 1_700_000_000_123_456, TokenKind::Access).unwrap();
    let parts: Vec<&str> = token.split('.').collect();
    assert_eq!(parts.len(), 3);
    assert_eq!(parts[0], "eyJ0eXAiOiJKV1QiLCJhbGciOiJIUzI1NiJ9");
    assert_eq!(
        parts[1],
        "eyJzdWIiOiI1NTBlODQwMC1lMjliLTQxZDQtYTcxNi00NDY2NTU0NDAwMDAiLCJ0aWQiOiIwMTIzNDU2Ny04OWFiLWNkZWYtMDEyMy00NTY3ODlhYmNkZWYiLCJleHAiOjE3MDAwMDA5MDAsImlhdCI6MTcwMDAwMDAwMCwidG9rZW5fdHlwZSI6ImFjY2VzcyJ9"
    );
}

#[test]
fn claims_identify_their_user_and_tenant() {
    let c = claims_for(USER, TENANT, 10, 20, TokenKind::Refresh);
    assert_eq!(c.sub, "550e8400-e29b-41d4-a716-446655440000");
    assert_eq!(c.token_type, "refresh");
    assert_eq!(identity_from_claims(&c, TokenKind::Refresh), Ok((USER, TENANT)));
    assert_eq!(identity_from_claims(&c, TokenKind::Access), Err(DomainError::Unauthorized));
}

fn service() -> JwtTokenService {
    JwtTokenService::new("SECRET-REDACTED".to_string(), 900, 604800)
}

#[test]
fn access_token_round_trips() {
    let jwt = service();
    let token = jwt.generate_access_token(USER, TENANT).unwrap();
    assert_eq!(token.split('.').count(), 3);
    assert_eq!(jwt.decode_access_token(&token), Ok((USER, TENANT)));
}

#[test]
fn refresh_token_is_not_an_access_token() {
    let jwt = service();
    let token = jwt.generate_refresh_token(USER, TENANT).unwrap();
    assert_eq!(jwt.validate_refresh_token(&token), Ok((USER, TENANT)));
    assert_eq!(jwt.decode_access_token(&token), Err(DomainError::Unauthorized));
    let access = jwt.generate_access_token(USER, TENANT).unwrap();
    assert_eq!(jwt.validate_refresh_token(&access), Err(DomainError::Unauthorized));
}

#[test]
fn token_from_another_secret_is_refused() {
    let other = JwtTokenService::new("another".to_string(), 900, 900);
    let token = other.generate_access_token(USER, TENANT).unwrap();
    assert_eq!(service().decode_access_token(&token), Err(DomainError::Unauthorized));
    assert_eq!(service().decode_access_token("garbage"), Err(DomainError::Unauthorized));
}

#[test]
fn expired_token_is_refused() {
    let jwt = service();
    let token = jwt.create_token_at(USER, TENANT, 1_000_000, TokenKind::Access).unwrap();
    assert_eq!(jwt.decode_access_token(&token), Err(DomainError::Unauthorized));
}

#[test]
fn tokens_issued_at_the_same_second_are_equal() {
    let jwt = service();
    let a = jwt.create_token_at(USER, TENANT, 1_700_000_000_123_456, TokenKind::Access).unwrap();
    let b = jwt.create_token_at(USER, TENANT, 1_700_000_000_999_999, TokenKind::Access).unwrap();
    let c = jwt.create_token_at(USER, TENANT, 1_700_000_001_000_000, TokenKind::Access).unwrap();
    assert_eq!(a, b);
    assert_ne!(a, c);
}

#[test]
fn expiry_past_u64_is_refused() {
    let jwt = JwtTokenService::new("s".to_string(), u64::MAX, 1);
    let err = jwt.create_token_at(USER, TENANT, 1_000_000, TokenKind::Access).unwrap_err();
    assert_eq!(
        err,
        DomainError::Validation("Token generation failed: expiry out of range".to_string())
    );
}

#[test]
fn revoked_refresh_token_is_refused() {
    let mut jwt = service();
    let used = jwt.generate_refresh_token(USER, TENANT).unwrap();
    let other = jwt.create_token_at(TENANT, USER, 4_000_000_000_000_000, TokenKind::Refresh).unwrap();
    assert!(!jwt.is_revoked(&used));
    assert_eq!(jwt.validate_refresh_token(&used), Ok((USER, TENANT)));
    assert_eq!(jwt.revoke_refresh_token(&used), Ok(()));
    assert!(jwt.is_revoked(&used));
    assert_eq!(jwt.validate_refresh_token(&used), Err(DomainError::Unauthorized));
    assert_eq!(jwt.validate_refresh_token(&other), Ok((TENANT, USER)));
    assert_eq!(jwt.revoke_refresh_token(&used), Ok(()));
    assert_eq!(jwt.validate_refresh_token(&used), Err(DomainError::Unauthorized));
}

#[test]
fn token_fingerprint_is_sha256_hex() {
    assert_eq!(
        JwtTokenService::hash_token("abc"),
        "ba7816bf8f01cfea414140de5dae2223b00361a396177a9cb410ff61f20015ad"
    );
    assert_eq!(JwtTokenService::hash_token("").len(), 64);
}

#[test]
fn bearer_prefix_is_required() {
    assert_eq!(bearer_token(Some("Bearer abc.def")), Some("abc.def".to_string()));
    assert_eq!(bearer_token(Some("bearer abc")), None);
    assert_eq!(bearer_token(Some("Basic abc")), None);
    assert_eq!(bearer_token(None), None);
    assert_eq!(bearer_token(Some("Bearer ")), Some(String::new()));
}

#[test]
fn authorization_header_is_checked() {
    let jwt = service();
    let token = jwt.generate_access_token(USER, TENANT).unwrap();
    let header = format!("Bearer {}", token);
    assert_eq!(
        AuthClaims::from_authorization(Some(&header), &jwt),
        Ok(AuthClaims { user_id: USER, tenant_id: TENANT })
    );
    assert_eq!(
        AuthClaims::from_authorization(None, &jwt),
        Err(AuthRejection {
            status: 401,
            message: "Missing or invalid Authorization header".to_string()
        })
    );
    assert_eq!(
        AuthClaims::from_authorization(Some("Bearer nope"), &jwt),
        Err(AuthRejection { status: 401, message: "Invalid or expired token".to_string() })
    );
}

#[test]
fn refresh_token_does_not_authenticate_a_request() {
    let jwt = service();
    let refresh = jwt.generate_refresh_token(USER, TENANT).unwrap();
    let header = format!("Bearer {}", refresh);
    assert_eq!(
        AuthClaims::from_authorization(Some(&header), &jwt),
        Err(AuthRejection { status: 401, message: "Invalid or expired token".to_string() })
    );
}

#[test]
fn password_hash_verifies() {
    let h = Argon2PasswordHasher;
    let hash = h.hash("correct horse").unwrap();
    assert!(hash.starts_with("$argon2id$"));
    assert_ne!(hash, "correct horse");
    assert_eq!(h.verify("correct horse", &hash), Ok(true));
    assert_eq!(h.verify("wrong horse", &hash), Ok(false));
}

#[test]
fn hash_with_same_salt_is_deterministic() {
    let h = Argon2PasswordHasher;
    let a = h.hash_with_salt("pw123456", "c2FsdHNhbHRzYWx0").unwrap();
    let b = h.hash_with_salt("pw123456", "c2FsdHNhbHRzYWx0").unwrap();
    assert_eq!(a, b);
    assert!(a.contains("c2FsdHNhbHRzYWx0"));
}

#[test]
fn salt_of_too_few_bytes_fails_hashing() {
    let h = Argon2PasswordHasher;
    // Eight B64 characters decode to six bytes, fewer than Argon2 takes.
    match h.hash_with_salt("pw123456", "c2FsdHNh") {
        Err(DomainError::Validation(m)) => assert!(m.starts_with("Password hashing failed: ")),
        other => panic!("unexpected {:?}", other),
    }
    // Eleven characters decode to eight bytes, which is enough.
    assert!(h.hash_with_salt("pw123456", "c2FsdHNhbHQ").is_ok());
}

#[test]
fn bad_salt_fails_hashing() {
    let h = Argon2PasswordHasher;
    match h.hash_with_salt("pw", "!") {
        Err(DomainError::Validation(m)) => assert!(m.starts_with("Password hashing failed: ")),
        other => panic!("unexpected {:?}", other),
    }
}

#[test]
fn malformed_hash_is_a_validation_error() {
    let h = Argon2PasswordHasher;
    match h.verify("pw", "not a phc string") {
        Err(DomainError::Validation(m)) => assert!(m.starts_with("Invalid hash format: ")),
        other => panic!("unexpected {:?}", other),
    }
}

#[test]
fn token_without_three_segments_is_refused() {
    let mut jwt = service();
    let token = jwt.generate_refresh_token(USER, TENANT).unwrap();
    let extra = format!("{}.x", token);
    assert_eq!(jwt.validate_refresh_token(&extra), Err(DomainError::Unauthorized));
    assert_eq!(jwt.decode_access_token("a.b"), Err(DomainError::Unauthorized));
    assert_eq!(jwt.decode_access_token(""), Err(DomainError::Unauthorized));
    assert_eq!(jwt.revoke_refresh_token("a.b"), Ok(()));
    assert_eq!(
        AuthClaims::from_authorization(Some("Bearer one.two"), &jwt),
        Err(AuthRejection { status: 401, message: "Invalid or expired token".to_string() })
    );
}

#[test]
fn text_not_starting_with_dollar_is_no_hash() {
    let h = Argon2PasswordHasher;
    for bad in ["", "plain", "argon2id$v=19"] {
        match h.verify("pw", bad) {
            Err(DomainError::Validation(m)) => assert!(m.starts_with("Invalid hash format: ")),
            other => panic!("unexpected {:?}", other),
        }
    }
}
