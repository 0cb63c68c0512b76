//! Captcha challenges: an answer kept in the shared cache for a short time,
//! consumed by the first attempt to answer it, right or wrong.
use vstd::prelude::*;
use crate::cache::{live, CacheValue, CachedValue, SharedCache};
use crate::governor::CacheMap;
use crate::keys::{cache_key, RedisUtils};
use crate::security::{random_below, SecurityUtils};
use crate::text::{decimal, decimal_string, push_char, push_decimal};

verus! {

/// What a challenge asks.
#[derive(Debug, Clone, Copy, PartialEq, Eq, Structural)]
pub enum CaptchaKind {
    /// A sum or product of two digits, answered by its value.
    Math,
    /// A code of letters and digits, shown as it is and answered by itself.
    Char,
}

/// A challenge handed to a client: the id to answer under, and what to show.
pub struct CaptchaChallenge {
    pub id: String,
    pub question: String,
}

/// `a+b=?` or `a*b=?`.
pub open spec fn math_question(a: nat, b: nat, times: bool) -> Seq<char> {
    decimal(a) + (if times { seq!['*'] } else { seq!['+'] }) + decimal(b) + seq!['=', '?']
}

/// The value that answers `math_question(a, b, times)`.
pub open spec fn math_answer(a: nat, b: nat, times: bool) -> Seq<char> {
    decimal(if times { a * b } else { a + b })
}

/// Whether `question` and `answer` make a challenge of `kind`; a `Char`
/// challenge has `length` characters.
pub open spec fn is_challenge(kind: CaptchaKind, question: Seq<char>, answer: Seq<char>, length: nat) -> bool {
    match kind {
        CaptchaKind::Char => question.len() == length && answer == question,
        CaptchaKind::Math => exists|a: nat, b: nat, times: bool|
            a < 10 && b < 10 && question == #[trigger] math_question(a, b, times) && answer == math_answer(
                a,
                b,
                times,
            ),
    }
}

/// Draws a challenge of `kind`: its question and its answer.
fn draw_challenge(kind: CaptchaKind, length: usize) -> (r: (String, String))
    ensures
        is_challenge(kind, r.0@, r.1@, length as nat),
{
    match kind {
        CaptchaKind::Char => {
            let code = SecurityUtils::generate_captcha(length);
            let answer = code.clone();
            (code, answer)
        },
        CaptchaKind::Math => {
            let a = random_below(10) as u64;
            let b = random_below(10) as u64;
            let times = random_below(2) == 1;
            let mut question = decimal_string(a);
            push_char(&mut question, if times { '*' } else { '+' });
            push_decimal(&mut question, b);
            push_char(&mut question, '=');
            push_char(&mut question, '?');
            assert(a * b < 100) by (nonlinear_arith)
                requires
                    a < 10,
                    b < 10,
            ;
            let value: u64 = if times { a * b } else { a + b };
            let answer = decimal_string(value);
            assert(question@ == math_question(a as nat, b as nat, times));
            assert(answer@ == math_answer(a as nat, b as nat, times));
            (question, answer)
        },
    }
}

pub open spec fn captcha_key(id: Seq<char>) -> Seq<char> {
    cache_key("captcha"@, id)
}

/// A character with ASCII capitals folded to small letters, as a code point.
pub open spec fn fold_case(c: char) -> u32 {
    if 65 <= c as u32 <= 90 {
        (c as u32 + 32) as u32
    } else {
        c as u32
    }
}

/// Equality up to ASCII case.
pub open spec fn eq_ignore_case(a: Seq<char>, b: Seq<char>) -> bool {
    a.len() == b.len() && forall|i: int| 0 <= i < a.len() ==> fold_case(#[trigger] a[i]) == fold_case(b[i])
}

/// Whether the cache accepts `answer` for challenge `id` at `now`: a live
/// answer is stored under it and equals `answer` up to ASCII case.
pub open spec fn captcha_accepts(m: CacheMap, id: Seq<char>, answer: Seq<char>, now: u64) -> bool {
    live(m, captcha_key(id), now) && match m[captcha_key(id)].0 {
        CachedValue::Text(expected) => eq_ignore_case(expected, answer),
        CachedValue::Count(_) => false,
    }
}

/// Whether `a` and `b` are equal up to ASCII case.
pub fn equals_ignore_case(a: &str, b: &str) -> (r: bool)
    ensures
        r == eq_ignore_case(a@, b@),
{
    let n = a.unicode_len();
    if n != b.unicode_len() {
        return false;
    }
    let mut i: usize = 0;
    while i < n
        invariant
            n == a@.len(),
            n == b@.len(),
            i <= n,
            forall|j: int| 0 <= j < i ==> fold_case(#[trigger] a@[j]) == fold_case(b@[j]),
        decreases n - i,
    {
        let x = a.get_char(i) as u32;
        let y = b.get_char(i) as u32;
        let fx = if 65 <= x && x <= 90 { x + 32 } else { x };
        let fy = if 65 <= y && y <= 90 { y + 32 } else { y };
        if fx != fy {
            return false;
        }
        i = i + 1;
    }
    true
}

/// Keeps `code` as the answer of challenge `id` for `ttl` seconds from `now`.
pub fn store_captcha(cache: &mut SharedCache, id: &str, code: &str, now: u64, ttl: u64)
    requires
        old(cache).wf(),
    ensures
        final(cache).wf(),
        final(cache).view() == old(cache).view().insert(
            captcha_key(id@),
            (CachedValue::Text(code@), crate::cache::expiry(now, ttl)),
        ),
{
    let key = RedisUtils::build_captcha_cache_key(id);
    cache.set(key.as_str(), CacheValue::Text(code.to_owned()), now, ttl);
}

/// Issues a challenge of `kind` under a random id, its answer kept for `ttl`
/// seconds from `now`; a `Char` challenge has `length` characters.
pub fn issue_captcha(cache: &mut SharedCache, kind: CaptchaKind, length: usize, now: u64, ttl: u64) -> (r: CaptchaChallenge)
    requires
        old(cache).wf(),
    ensures
        final(cache).wf(),
        exists|answer: Seq<char>|
            is_challenge(kind, r.question@, answer, length as nat) && final(cache).view() == old(cache).view().insert(
                captcha_key(r.id@),
                (CachedValue::Text(answer), crate::cache::expiry(now, ttl)),
            ),
{
    let id = SecurityUtils::generate_uuid();
    let (question, answer) = draw_challenge(kind, length);
    store_captcha(cache, id.as_str(), answer.as_str(), now, ttl);
    let r = CaptchaChallenge { id, question };
    assert(is_challenge(kind, r.question@, answer@, length as nat));
    r
}

/// Checks `answer` against challenge `id` at `now` and consumes the
/// challenge, whatever the outcome.
pub fn verify_captcha(cache: &mut SharedCache, id: &str, answer: &str, now: u64) -> (r: bool)
    requires
        old(cache).wf(),
    ensures
        final(cache).wf(),
        final(cache).view() == old(cache).view().remove(captcha_key(id@)),
        r == captcha_accepts(old(cache).view(), id@, answer@, now),
{
    let key = RedisUtils::build_captcha_cache_key(id);
    match cache.take(key.as_str(), now) {
        Some(CacheValue::Text(expected)) => equals_ignore_case(expected.as_str(), answer),
        Some(CacheValue::Count(_)) => false,
        None => false,
    }
}

/// A challenge is answered at most once: after an attempt, right or wrong,
/// no answer to the same id is accepted, at any time.
pub proof fn lemma_captcha_consumed(m: CacheMap, id: Seq<char>, answer: Seq<char>, now: u64)
    ensures
        !captcha_accepts(m.remove(captcha_key(id)), id, answer, now),
{
}

} // verus!
