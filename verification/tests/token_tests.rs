use pantry_service::error::AppError;
use pantry_service::jwt::{bearer_token, create_token, validate_token, TOKEN_TTL_SECS};

const SECRET: &str = "SECRET-REDACTED";
const NOW: u64 = 1700000000;

#[test]
fn issue_then_verify_within_window_returns_claims() {
    let token = create_token(SECRET, "uid-1", "a@b.com", NOW).expect("token issued");
    let claims = validate_token(SECRET, &token, NOW).expect("valid before expiry");
    assert_eq!(claims.sub.as_str(), "uid-1");
    assert_eq!(claims.email.as_str(), "a@b.com");
    assert_eq!(claims.exp, NOW + TOKEN_TTL_SECS);

    let late_but_valid = validate_token(SECRET, &token, NOW + TOKEN_TTL_SECS - 1);
    assert!(late_but_valid.is_ok());
}

#[test]
fn verify_after_expiry_is_unauthorized() {
    let token = create_token(SECRET, "uid-1", "a@b.com", NOW).expect("token issued");
    let at_expiry = validate_token(SECRET, &token, NOW + TOKEN_TTL_SECS);
    assert!(matches!(at_expiry, Err(AppError::Unauthorized(_))));
    let after = validate_token(SECRET, &token, NOW + TOKEN_TTL_SECS + 1);
    assert!(matches!(after, Err(AppError::Unauthorized(_))));
}

#[test]
fn tampered_token_is_unauthorized() {
    let token = create_token(SECRET, "uid-1", "a@b.com", NOW).expect("token issued");
    let mut tampered = token.clone();
    let last = tampered.pop().expect("token not empty");
    tampered.push(if last == 'A' { 'B' } else { 'A' });
    assert_ne!(token, tampered);
    let res = validate_token(SECRET, &tampered, NOW);
    assert!(matches!(res, Err(AppError::Unauthorized(_))));
}

#[test]
fn wrong_secret_is_unauthorized() {
    let token = create_token(SECRET, "uid-1", "a@b.com", NOW).expect("token issued");
    let res = validate_token("another-secret", &token, NOW);
    assert!(matches!(res, Err(AppError::Unauthorized(_))));
}

#[test]
fn garbage_token_is_unauthorized() {
    let res = validate_token(SECRET, "definitely.not.a-token", NOW);
    assert!(matches!(res, Err(AppError::Unauthorized(_))));
}

#[test]
fn bearer_header_extraction() {
    assert_eq!(bearer_token("Bearer abc.def.ghi"), Ok("abc.def.ghi"));
    assert!(matches!(bearer_token("Token abc"), Err(AppError::Unauthorized(_))));
    assert!(matches!(bearer_token("Bearer"), Err(AppError::Unauthorized(_))));
    assert!(matches!(bearer_token(""), Err(AppError::Unauthorized(_))));
    assert_eq!(bearer_token("Bearer "), Ok(""));
}
