use argon2::password_hash::{PasswordHasher, SaltString};
use zzyl_auth::auth::{captcha_kind_of, captcha_verdict, scope_filter, Account, AuthConfig, AuthError, AuthService};
use zzyl_auth::enums::DataScope;
use zzyl_auth::scope::Role;
use zzyl_auth::token::Claims;
use zzyl_auth::captcha::CaptchaKind;
use zzyl_auth::enums::UserStatus;
use zzyl_auth::security::SecurityUtils;

fn hash_of(password: &str) -> String {
    let params = argon2::Params::new(8, 1, 1, None).unwrap();
    let hasher = argon2::Argon2::new(argon2::Algorithm::Argon2id, argon2::Version::V0x13, params);
    let salt = SaltString::from_b64("c2FsdHNhbHRzYWx0").unwrap();
    hasher.hash_password(password.as_bytes(), &salt).unwrap().to_string()
}

fn account(status: UserStatus) -> Account {
    Account {
        id: 42,
        username: "alice".to_string(),
        password_hash: hash_of("right"),
        status,
        dept_id: 7,
    }
}

fn service() -> AuthService {
    let mut config = AuthConfig::new(b"facade-secret".to_vec());
    config.captcha_kind = CaptchaKind::Char;
    AuthService::new(config)
}

fn attempt(s: &mut AuthService, a: &Account, password: &str, now: u64) -> Result<String, AuthError> {
    let ch = s.issue_captcha(now);
    s.login("alice", password, &ch.id, &ch.question, Some(a), &vec![1, 2], now)
        .map(|r| r.access_token)
}

#[test]
fn password_check_uses_the_stored_hash() {
    let h = hash_of("right");
    assert!(SecurityUtils::verify_password("right", &h));
    assert!(!SecurityUtils::verify_password("wrong", &h));
    assert!(!SecurityUtils::verify_password("right", "not a phc string"));
}

#[test]
fn login_then_authorize() {
    let mut s = service();
    let a = account(UserStatus::Normal);
    let ch = s.issue_captcha(100);
    let resp = s.login("alice", "right", &ch.id, &ch.question, Some(&a), &vec![1, 2], 100).unwrap();
    assert_eq!(resp.token_type, "Bearer");
    assert_eq!(resp.expires_in, 604_800);
    let claims = s.authorize(&resp.access_token, 101).unwrap();
    assert_eq!(claims.sub, 42);
    assert_eq!(claims.username, "alice");
    assert_eq!(claims.roles, vec![1, 2]);
    assert_eq!(claims.iat, 100);
    assert_eq!(claims.exp, 100 + 604_800);
    assert_eq!(s.authorize(&resp.access_token, 100 + 604_800).err(), Some(AuthError::TokenExpired));
    assert_eq!(s.authorize("garbage", 101).err(), Some(AuthError::TokenMalformed));
}

#[test]
fn wrong_captcha_is_refused_and_consumed() {
    let mut s = service();
    let a = account(UserStatus::Normal);
    let ch = s.issue_captcha(0);
    let wrong = format!("{}x", ch.question);
    assert_eq!(
        s.login("alice", "right", &ch.id, &wrong, Some(&a), &vec![], 1).err(),
        Some(AuthError::CaptchaInvalid)
    );
    assert_eq!(
        s.login("alice", "right", &ch.id, &ch.question, Some(&a), &vec![], 2).err(),
        Some(AuthError::CaptchaInvalid)
    );
}

#[test]
fn bad_password_and_unknown_user() {
    let mut s = service();
    let a = account(UserStatus::Normal);
    assert_eq!(attempt(&mut s, &a, "wrong", 0).err(), Some(AuthError::BadCredentials));
    let ch = s.issue_captcha(1);
    assert_eq!(
        s.login("nobody", "right", &ch.id, &ch.question, None, &vec![], 1).err(),
        Some(AuthError::BadCredentials)
    );
}

#[test]
fn disabled_account_is_refused_after_the_password_check() {
    let mut s = service();
    let a = account(UserStatus::Disabled);
    assert_eq!(attempt(&mut s, &a, "right", 0).err(), Some(AuthError::AccountDisabled));
    assert_eq!(attempt(&mut s, &a, "wrong", 1).err(), Some(AuthError::BadCredentials));
}

#[test]
fn sixth_attempt_after_five_failures_is_locked() {
    let mut s = service();
    let a = account(UserStatus::Normal);
    for i in 0..5u64 {
        assert_eq!(attempt(&mut s, &a, "wrong", 10 + i).err(), Some(AuthError::BadCredentials));
    }
    assert_eq!(attempt(&mut s, &a, "right", 20).err(), Some(AuthError::AccountLocked));
    assert_eq!(attempt(&mut s, &a, "right", 613).err(), Some(AuthError::AccountLocked));
    assert!(attempt(&mut s, &a, "right", 614).is_ok());
}

#[test]
fn success_means_five_more_failures_to_lock() {
    let mut s = service();
    let a = account(UserStatus::Normal);
    for i in 0..4u64 {
        attempt(&mut s, &a, "wrong", i).unwrap_err();
    }
    assert!(attempt(&mut s, &a, "right", 5).is_ok());
    for i in 0..4u64 {
        assert_eq!(attempt(&mut s, &a, "wrong", 10 + i).err(), Some(AuthError::BadCredentials));
    }
    assert!(attempt(&mut s, &a, "right", 20).is_ok());
}

#[test]
fn error_codes_and_messages() {
    assert_eq!(AuthError::CaptchaInvalid.code(), 1001);
    assert_eq!(AuthError::TokenSignatureInvalid.code(), 1103);
    for e in [AuthError::CaptchaInvalid, AuthError::AccountLocked, AuthError::BadCredentials, AuthError::AccountDisabled] {
        assert_eq!(e.message(), "login failed");
    }
    assert_eq!(AuthError::TokenExpired.message(), "session expired");
    assert_eq!(AuthError::TokenMalformed.message(), "invalid token");
    assert_eq!(AuthError::CacheUnavailable.message(), "service unavailable");
}

#[test]
fn math_captcha_login() {
    let mut s = AuthService::new(AuthConfig::new(b"k".to_vec()));
    let a = account(UserStatus::Normal);
    let ch = s.issue_captcha(0);
    let q = ch.question.strip_suffix("=?").unwrap();
    let value = if let Some((x, y)) = q.split_once('*') {
        x.parse::<u64>().unwrap() * y.parse::<u64>().unwrap()
    } else {
        let (x, y) = q.split_once('+').unwrap();
        x.parse::<u64>().unwrap() + y.parse::<u64>().unwrap()
    };
    let resp = s.login("alice", "right", &ch.id, &value.to_string(), Some(&a), &vec![], 1);
    assert!(resp.is_ok());
}

#[test]
fn captcha_settings_and_cache_failures() {
    assert_eq!(captcha_kind_of("char"), CaptchaKind::Char);
    assert_eq!(captcha_kind_of("math"), CaptchaKind::Math);
    assert_eq!(captcha_verdict(None), Err(AuthError::CacheUnavailable));
    assert_eq!(captcha_verdict(Some(false)), Err(AuthError::CaptchaInvalid));
    assert_eq!(captcha_verdict(Some(true)), Ok(()));
}

fn session(roles: Vec<u64>) -> Claims {
    Claims { sub: 5, username: "alice".to_string(), roles, iat: 0, exp: 10 }
}

fn role(id: u64, data_scope: DataScope) -> Role {
    Role { id, data_scope, dept_ids: vec![], status: UserStatus::Normal }
}

#[test]
fn scope_filter_for_a_session() {
    let s = session(vec![1]);
    assert_eq!(scope_filter(&s, &vec![role(1, DataScope::Dept)], 7, &vec![9, 12], "d"), "d.dept_id IN ('7')");
    let sql = scope_filter(&s, &vec![role(1, DataScope::DeptAndChild)], 7, &vec![9, 12], "d");
    assert_eq!(sql, "d.dept_id IN ('7','9','12')");
    let both = vec![role(1, DataScope::All), role(2, DataScope::SelfOnly)];
    assert_eq!(scope_filter(&s, &both, 7, &vec![], "d"), "");
    assert_eq!(scope_filter(&s, &vec![role(2, DataScope::SelfOnly)], 7, &vec![], "u"), "u.user_id = 5");
}
