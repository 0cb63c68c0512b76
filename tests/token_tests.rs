use zzyl_auth::token::{issue_token, validate_token, TokenError};

const SECRET: &[u8] = b"unit-test-secret";

#[test]
fn issued_token_validates_to_its_claims() {
    let roles = vec![3u64, 8];
    let token = issue_token(SECRET, 42, "alice", &roles, 1_000, 604_800);
    let claims = validate_token(SECRET, &token, 1_000).expect("valid token");
    assert_eq!(claims.sub, 42);
    assert_eq!(claims.username, "alice");
    assert_eq!(claims.roles, vec![3, 8]);
    assert_eq!(claims.iat, 1_000);
    assert_eq!(claims.exp, 605_800);
}

#[test]
fn non_ascii_user_name_survives() {
    let token = issue_token(SECRET, 7, "张三 o'Brien.x", &vec![], 10, 100);
    let claims = validate_token(SECRET, &token, 50).unwrap();
    assert_eq!(claims.username, "张三 o'Brien.x");
    assert!(claims.roles.is_empty());
}

#[test]
fn token_is_body_dot_signature() {
    let token = issue_token(SECRET, 1, "a", &vec![], 0, 10);
    let (body, sig) = token.split_once('.').unwrap();
    // five header words and one character word, sixteen digits each
    assert_eq!(body.len(), 16 * 5);
    assert!(body.chars().all(|c| c.is_ascii_hexdigit() && !c.is_ascii_uppercase()));
    assert!(!sig.is_empty());
    assert_ne!(sig, body);
}

#[test]
fn token_expires_at_its_expiry_time() {
    let token = issue_token(SECRET, 1, "bob", &vec![1], 100, 50);
    assert!(validate_token(SECRET, &token, 149).is_ok());
    assert_eq!(validate_token(SECRET, &token, 150).err(), Some(TokenError::Expired));
    assert_eq!(validate_token(SECRET, &token, 10_000).err(), Some(TokenError::Expired));
}

#[test]
fn expired_token_with_other_secret_is_expired_not_badly_signed() {
    let token = issue_token(SECRET, 1, "bob", &vec![1], 100, 50);
    assert_eq!(validate_token(b"another", &token, 200).err(), Some(TokenError::Expired));
}

#[test]
fn other_secret_is_signature_invalid() {
    let token = issue_token(SECRET, 1, "bob", &vec![1], 100, 50);
    assert_eq!(validate_token(b"another", &token, 120).err(), Some(TokenError::SignatureInvalid));
}

#[test]
fn tampered_body_is_refused() {
    let token = issue_token(SECRET, 1, "bob", &vec![1], 100, 50);
    // raise the account id word (the third) by one
    let mut chars: Vec<char> = token.chars().collect();
    let last_of_sub = 16 * 3 - 1;
    chars[last_of_sub] = if chars[last_of_sub] == '1' { '2' } else { '1' };
    let forged: String = chars.into_iter().collect();
    assert_eq!(validate_token(SECRET, &forged, 120).err(), Some(TokenError::SignatureInvalid));
}

#[test]
fn tampered_signature_is_refused() {
    let mut token = issue_token(SECRET, 1, "bob", &vec![1], 100, 50);
    token.push('x');
    assert_eq!(validate_token(SECRET, &token, 120).err(), Some(TokenError::SignatureInvalid));
}

#[test]
fn malformed_tokens() {
    assert_eq!(validate_token(SECRET, "", 0).err(), Some(TokenError::Malformed));
    assert_eq!(validate_token(SECRET, "no-dot-here", 0).err(), Some(TokenError::Malformed));
    assert_eq!(validate_token(SECRET, "xyz.sig", 0).err(), Some(TokenError::Malformed));
    // whole words, but fewer than the four header words
    assert_eq!(validate_token(SECRET, "0000000000000001.sig", 0).err(), Some(TokenError::Malformed));
    // a role count larger than the words that follow
    let body = format!("{:016x}{:016x}{:016x}{:016x}", 0, 100, 1, 5);
    assert_eq!(validate_token(SECRET, &format!("{}.s", body), 0).err(), Some(TokenError::Malformed));
    // a surrogate where a character should be
    let body = format!("{:016x}{:016x}{:016x}{:016x}{:016x}", 0, 100, 1, 0, 0xD800);
    assert_eq!(validate_token(SECRET, &format!("{}.s", body), 0).err(), Some(TokenError::Malformed));
    // upper case digits are not this encoding
    let body = format!("{:016X}{:016X}{:016X}{:016X}", 0, 0xABC, 1, 0);
    assert_eq!(validate_token(SECRET, &format!("{}.s", body), 0).err(), Some(TokenError::Malformed));
}
