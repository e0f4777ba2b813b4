use mentem_api::auth::error::AuthError;
use mentem_api::auth::token::{check_claims, JwtTokenService, TokenService, TOKEN_TTL_SECS};

const SECRET: &str = "0123456789abcdef0123456789abcdef";

#[test]
fn subjects_are_read_as_uuids() {
    let c = check_claims("67e55044-10b1-426f-9247-bb680e5fe0c8", 10, Ok(0)).unwrap();
    assert_eq!(c.user_id, 0x67e5_5044_10b1_426f_9247_bb68_0e5f_e0c8);
    let c = check_claims("67e5504410b1426f9247bb680e5fe0c8", 10, Ok(0)).unwrap();
    assert_eq!(c.user_id, 0x67e5_5044_10b1_426f_9247_bb68_0e5f_e0c8);
    assert!(matches!(check_claims("42", 10, Ok(0)), Err(AuthError::InvalidCredentials)));
}

#[test]
fn issued_token_names_the_user_as_hyphenated_uuid() {
    let tokens = JwtTokenService::new(SECRET);
    let id: u128 = 0x67e5_5044_10b1_426f_9247_bb68_0e5f_e0c8;
    let token = tokens.issue(&id).unwrap();
    let data = jsonwebtoken::decode::<serde_json::Value>(
        &token,
        &jsonwebtoken::DecodingKey::from_secret(SECRET.as_bytes()),
        &jsonwebtoken::Validation::new(jsonwebtoken::Algorithm::HS256),
    )
    .unwrap();
    assert_eq!(data.header.alg, jsonwebtoken::Algorithm::HS256);
    assert_eq!(data.claims["sub"], "67e55044-10b1-426f-9247-bb680e5fe0c8");
    assert!(data.claims["exp"].is_i64());
    assert_eq!(tokens.verify(&token).unwrap().user_id, id);
}

#[test]
fn issued_token_verifies_to_its_user() {
    let tokens = JwtTokenService::new(SECRET);
    let id: u128 = 42;
    let token = tokens.issue(&id).unwrap();
    let claims = tokens.verify(&token).unwrap();
    assert_eq!(claims.user_id, id);
    let now = std::time::SystemTime::now()
        .duration_since(std::time::UNIX_EPOCH)
        .unwrap()
        .as_secs() as i64;
    assert!(claims.expires_at >= now + TOKEN_TTL_SECS as i64 - 5);
    assert!(claims.expires_at <= now + TOKEN_TTL_SECS as i64 + 5);
}

#[test]
fn issue_at_sets_expiry_one_hour_later() {
    let tokens = JwtTokenService::new(SECRET);
    let now = std::time::SystemTime::now()
        .duration_since(std::time::UNIX_EPOCH)
        .unwrap()
        .as_secs();
    let token = tokens.issue_at(&9, Ok(now)).unwrap();
    let claims = tokens.verify(&token).unwrap();
    assert_eq!(claims.user_id, 9);
    assert_eq!(claims.expires_at, (now + 3600) as i64);
}

#[test]
fn issue_at_reports_clock_failure() {
    let tokens = JwtTokenService::new(SECRET);
    match tokens.issue_at(&9, Err("clock".to_string())) {
        Err(AuthError::Internal(d)) => assert_eq!(d, "clock"),
        other => panic!("unexpected {:?}", other),
    }
}

#[test]
fn token_under_other_secret_is_refused() {
    let a = JwtTokenService::new(SECRET);
    let b = JwtTokenService::new("another secret that is long enough!!");
    let token = a.issue(&1).unwrap();
    assert!(matches!(b.verify(&token), Err(AuthError::InvalidCredentials)));
}

#[test]
fn tampered_token_is_refused() {
    let tokens = JwtTokenService::new(SECRET);
    let mut token = tokens.issue(&1).unwrap();
    token.push('x');
    assert!(matches!(tokens.verify(&token), Err(AuthError::InvalidCredentials)));
    assert!(matches!(tokens.verify("garbage"), Err(AuthError::InvalidCredentials)));
}

#[test]
fn long_expired_token_is_refused() {
    let tokens = JwtTokenService::new(SECRET);
    // issued two hours ago: it expired an hour ago, beyond the decoder's leeway
    let now = std::time::SystemTime::now()
        .duration_since(std::time::UNIX_EPOCH)
        .unwrap()
        .as_secs();
    let token = tokens.issue_at(&1, Ok(now - 7200)).unwrap();
    assert!(matches!(tokens.verify(&token), Err(AuthError::InvalidCredentials)));
}

#[test]
fn recently_expired_token_is_expired() {
    let tokens = JwtTokenService::new(SECRET);
    // expired 30 seconds ago: within the decoder's leeway of 60 seconds
    let now = std::time::SystemTime::now()
        .duration_since(std::time::UNIX_EPOCH)
        .unwrap()
        .as_secs();
    let token = tokens.issue_at(&1, Ok(now - 3630)).unwrap();
    assert!(matches!(tokens.verify(&token), Err(AuthError::TokenExpired)));
}

#[test]
fn check_claims_compares_expiry_with_now() {
    let sub = "00000000-0000-0000-0000-00000000002a";
    let c = check_claims(sub, 1000, Ok(1000)).unwrap();
    assert_eq!((c.user_id, c.expires_at), (42, 1000));
    assert!(matches!(check_claims(sub, 999, Ok(1000)), Err(AuthError::TokenExpired)));
    assert!(matches!(check_claims("bob", 2000, Ok(1000)), Err(AuthError::InvalidCredentials)));
    match check_claims(sub, 2000, Err("no clock".to_string())) {
        Err(AuthError::Internal(d)) => assert_eq!(d, "no clock"),
        other => panic!("unexpected {:?}", other),
    }
}

#[test]
fn verify_at_accepts_until_expiry_then_expires_then_refuses() {
    let tokens = JwtTokenService::new(SECRET);
    let token = tokens.issue_at(&7, Ok(1_000_000)).unwrap();
    for now in [0, 1_000_000, 1_003_599, 1_003_600] {
        let c = tokens.verify_at(&token, Ok(now)).unwrap();
        assert_eq!((c.user_id, c.expires_at), (7, 1_003_600));
    }
    for now in [1_003_601, 1_003_660] {
        assert!(matches!(tokens.verify_at(&token, Ok(now)), Err(AuthError::TokenExpired)));
    }
    for now in [1_003_661, 2_000_000] {
        assert!(matches!(tokens.verify_at(&token, Ok(now)), Err(AuthError::InvalidCredentials)));
    }
    match tokens.verify_at(&token, Err("clock".to_string())) {
        Err(AuthError::Internal(d)) => assert_eq!(d, "clock"),
        other => panic!("unexpected {:?}", other),
    }
    assert!(matches!(tokens.verify_at("garbage", Err("clock".to_string())), Err(AuthError::InvalidCredentials)));
}

#[test]
fn expiry_leeway_decides_between_expired_and_invalid() {
    let sub = "00000000-0000-0000-0000-00000000002a";
    assert!(matches!(check_claims(sub, 940, Ok(1000)), Err(AuthError::TokenExpired)));
    assert!(matches!(check_claims(sub, 939, Ok(1000)), Err(AuthError::InvalidCredentials)));
    assert!(matches!(check_claims(sub, -10, Ok(0)), Err(AuthError::TokenExpired)));
    assert!(matches!(check_claims(sub, -61, Ok(0)), Err(AuthError::InvalidCredentials)));
}

fn base64url_decode(text: &str) -> Vec<u8> {
    let alphabet = b"ABCDEFGHIJKLMNOPQRSTUVWXYZabcdefghijklmnopqrstuvwxyz0123456789-_";
    let mut bits: u32 = 0;
    let mut n = 0;
    let mut out = Vec::new();
    for c in text.bytes() {
        let v = alphabet.iter().position(|&a| a == c).unwrap() as u32;
        bits = (bits << 6) | v;
        n += 6;
        if n >= 8 {
            n -= 8;
            out.push((bits >> n) as u8);
            bits &= (1 << n) - 1;
        }
    }
    out
}

#[test]
fn token_payload_names_subject_then_expiry() {
    let tokens = JwtTokenService::new(SECRET);
    let token = tokens.issue_at(&42, Ok(1_000)).unwrap();
    let payload = token.split('.').nth(1).unwrap();
    let text = String::from_utf8(base64url_decode(payload)).unwrap();
    assert_eq!(text, r#"{"sub":"00000000-0000-0000-0000-00000000002a","exp":4600}"#);
}
