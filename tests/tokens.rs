use here_auth::token::{
    check_opened, decode_jwt, decode_jwt_at, generate_jwt, generate_jwt_at, Claims, IssueError,
    TokenError, TOKEN_TTL_SECONDS,
};

const SECRET: &str = "server-secret";
const NOW: u64 = 1_700_000_000;

#[test]
fn issued_token_names_its_subject() {
    let token = generate_jwt_at(42, SECRET, NOW).unwrap();
    let claims = decode_jwt_at(&token, SECRET, NOW).unwrap();
    assert_eq!(claims.sub, "42");
    assert_eq!(claims.exp, NOW + 86400);
    let neg = generate_jwt_at(-7, SECRET, NOW).unwrap();
    assert_eq!(decode_jwt_at(&neg, SECRET, NOW).unwrap().sub, "-7");
}

#[test]
fn token_ttl_is_one_day() {
    assert_eq!(TOKEN_TTL_SECONDS, 24 * 60 * 60);
}

#[test]
fn expiry_is_strict() {
    let token = generate_jwt_at(1, SECRET, NOW).unwrap();
    let exp = NOW + TOKEN_TTL_SECONDS;
    assert!(decode_jwt_at(&token, SECRET, exp - 1).is_ok());
    assert_eq!(decode_jwt_at(&token, SECRET, exp), Err(TokenError::Expired));
    assert_eq!(decode_jwt_at(&token, SECRET, exp + 1000), Err(TokenError::Expired));
}

#[test]
fn other_secret_is_forged() {
    let token = generate_jwt_at(5, "secret-a", NOW).unwrap();
    assert_eq!(decode_jwt_at(&token, "secret-b", NOW), Err(TokenError::Forged));
    assert_eq!(decode_jwt_at(&token, "", NOW), Err(TokenError::Forged));
}

#[test]
fn garbage_is_malformed() {
    assert_eq!(decode_jwt_at("abc", SECRET, NOW), Err(TokenError::Malformed));
    assert_eq!(decode_jwt_at("", SECRET, NOW), Err(TokenError::Malformed));
    assert_eq!(decode_jwt_at("a.b.c", SECRET, NOW), Err(TokenError::Malformed));
}

#[test]
fn issue_refuses_clock_overflow() {
    assert_eq!(generate_jwt_at(1, SECRET, u64::MAX), Err(IssueError::ClockOutOfRange));
    assert_eq!(
        generate_jwt_at(1, SECRET, u64::MAX - TOKEN_TTL_SECONDS + 1),
        Err(IssueError::ClockOutOfRange)
    );
    assert!(generate_jwt_at(1, SECRET, u64::MAX - TOKEN_TTL_SECONDS).is_ok());
}

#[test]
fn token_is_deterministic_and_not_the_subject() {
    let a = generate_jwt_at(9, SECRET, NOW).unwrap();
    let b = generate_jwt_at(9, SECRET, NOW).unwrap();
    assert_eq!(a, b);
    assert_eq!(a.split('.').count(), 3);
    assert_ne!(a, generate_jwt_at(10, SECRET, NOW).unwrap());
}

#[test]
fn current_clock_round_trip() {
    let token = generate_jwt(77, SECRET).unwrap();
    assert_eq!(token.split('.').count(), 3);
    let claims = decode_jwt(&token, SECRET).unwrap();
    assert_eq!(claims.sub, "77");
}

#[test]
fn opened_payload_is_checked() {
    assert_eq!(
        check_opened(Ok((Some("3".to_string()), Some(10))), 9),
        Ok(Claims { sub: "3".to_string(), exp: 10 })
    );
    assert_eq!(check_opened(Ok((Some("3".to_string()), Some(10))), 10), Err(TokenError::Expired));
    assert_eq!(check_opened(Ok((None, Some(10))), 0), Err(TokenError::Malformed));
    assert_eq!(check_opened(Ok((Some("3".to_string()), None)), 0), Err(TokenError::Malformed));
    assert_eq!(check_opened(Err(TokenError::Forged), 0), Err(TokenError::Forged));
}
