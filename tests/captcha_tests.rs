use zzyl_auth::cache::SharedCache;
use zzyl_auth::captcha::{equals_ignore_case, issue_captcha, store_captcha, verify_captcha, CaptchaKind};

#[test]
fn right_answer_is_accepted_once() {
    let mut cache = SharedCache::new();
    store_captcha(&mut cache, "c1", "Ab3d", 0, 120);
    assert!(verify_captcha(&mut cache, "c1", "Ab3d", 10));
    assert!(!verify_captcha(&mut cache, "c1", "Ab3d", 11));
}

#[test]
fn answer_is_compared_ignoring_case() {
    let mut cache = SharedCache::new();
    store_captcha(&mut cache, "c1", "Ab3d", 0, 120);
    assert!(verify_captcha(&mut cache, "c1", "aB3D", 10));
}

#[test]
fn wrong_answer_consumes_the_challenge() {
    let mut cache = SharedCache::new();
    store_captcha(&mut cache, "c9", "XYZW", 0, 120);
    assert!(!verify_captcha(&mut cache, "c9", "XYZV", 5));
    assert!(!verify_captcha(&mut cache, "c9", "XYZW", 6));
}

#[test]
fn expired_challenge_is_refused() {
    let mut cache = SharedCache::new();
    store_captcha(&mut cache, "c1", "1234", 0, 120);
    assert!(!verify_captcha(&mut cache, "c1", "1234", 120));
}

#[test]
fn unknown_challenge_is_refused() {
    let mut cache = SharedCache::new();
    assert!(!verify_captcha(&mut cache, "nope", "", 0));
}

#[test]
fn challenges_are_independent() {
    let mut cache = SharedCache::new();
    store_captcha(&mut cache, "a", "1111", 0, 120);
    store_captcha(&mut cache, "b", "2222", 0, 120);
    assert!(!verify_captcha(&mut cache, "a", "2222", 1));
    assert!(verify_captcha(&mut cache, "b", "2222", 1));
}

#[test]
fn issued_challenge_can_be_answered() {
    let mut cache = SharedCache::new();
    let ch = issue_captcha(&mut cache, CaptchaKind::Char, 4, 0, 120);
    assert_eq!(ch.question.chars().count(), 4);
    assert_eq!(ch.id.len(), 36);
    assert!(verify_captcha(&mut cache, &ch.id, &ch.question.to_lowercase(), 60));
    assert!(!verify_captcha(&mut cache, &ch.id, &ch.question, 61));
}

#[test]
fn math_challenge_is_answered_by_its_value() {
    let mut cache = SharedCache::new();
    let ch = issue_captcha(&mut cache, CaptchaKind::Math, 4, 0, 120);
    let q = ch.question.strip_suffix("=?").expect("a question");
    let (x, op, y) = match q.split_once('+') {
        Some((x, y)) => (x, '+', y),
        None => {
            let (x, y) = q.split_once('*').expect("an operator");
            (x, '*', y)
        }
    };
    let (x, y): (u64, u64) = (x.parse().unwrap(), y.parse().unwrap());
    assert!(x < 10 && y < 10);
    let value = if op == '+' { x + y } else { x * y };
    assert!(!verify_captcha(&mut SharedCache::new(), &ch.id, &value.to_string(), 1));
    assert!(verify_captcha(&mut cache, &ch.id, &value.to_string(), 1));
}

#[test]
fn ignore_case_only_folds_ascii_letters() {
    assert!(equals_ignore_case("Hello", "hELLO"));
    assert!(!equals_ignore_case("Hello", "Hell"));
    assert!(!equals_ignore_case("[", "{"));
    assert!(!equals_ignore_case("É", "é"));
}
