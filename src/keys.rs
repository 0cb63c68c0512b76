//! Names of the entries in the shared cache.
use vstd::prelude::*;
use crate::text::{push_char, push_str};

verus! {

/// The key of `key` under `prefix`: `prefix:key`.
pub open spec fn cache_key(prefix: Seq<char>, key: Seq<char>) -> Seq<char> {
    prefix + seq![':'] + key
}

/// Builders of cache keys.
pub struct RedisUtils;

impl RedisUtils {
    pub fn build_cache_key(prefix: &str, key: &str) -> (r: String)
        ensures
            r@ == cache_key(prefix@, key@),
    {
        let mut s = prefix.to_owned();
        push_char(&mut s, ':');
        push_str(&mut s, key);
        s
    }

    pub fn build_user_cache_key(user_id: &str) -> (r: String)
        ensures
            r@ == cache_key("user"@, user_id@),
    {
        Self::build_cache_key("user", user_id)
    }

    pub fn build_session_cache_key(session_id: &str) -> (r: String)
        ensures
            r@ == cache_key("session"@, session_id@),
    {
        Self::build_cache_key("session", session_id)
    }

    pub fn build_captcha_cache_key(captcha_id: &str) -> (r: String)
        ensures
            r@ == cache_key("captcha"@, captcha_id@),
    {
        Self::build_cache_key("captcha", captcha_id)
    }

    pub fn build_token_cache_key(token: &str) -> (r: String)
        ensures
            r@ == cache_key("token"@, token@),
    {
        Self::build_cache_key("token", token)
    }

    /// The key of the request count of `ip` on `path`.
    pub fn build_rate_limit_cache_key(ip: &str, path: &str) -> (r: String)
        ensures
            r@ == cache_key("rate_limit"@, cache_key(ip@, path@)),
    {
        let inner = Self::build_cache_key(ip, path);
        Self::build_cache_key("rate_limit", inner.as_str())
    }

    /// The key of the last submission of `user_id` on `path`.
    pub fn build_repeat_submit_cache_key(user_id: &str, path: &str) -> (r: String)
        ensures
            r@ == cache_key("repeat_submit"@, cache_key(user_id@, path@)),
    {
        let inner = Self::build_cache_key(user_id, path);
        Self::build_cache_key("repeat_submit", inner.as_str())
    }

    /// The key of the failure counter of `username`.
    pub fn build_login_fail_cache_key(username: &str) -> (r: String)
        ensures
            r@ == cache_key("login_fail"@, username@),
    {
        Self::build_cache_key("login_fail", username)
    }

    /// The key of the lock of `username`.
    pub fn build_login_lock_cache_key(username: &str) -> (r: String)
        ensures
            r@ == cache_key("login_lock"@, username@),
    {
        Self::build_cache_key("login_lock", username)
    }
}

/// Keys under prefixes that differ at some position differ.
pub proof fn lemma_prefixes_differ(p: Seq<char>, q: Seq<char>, a: Seq<char>, b: Seq<char>, i: int)
    requires
        0 <= i < p.len(),
        i < q.len(),
        p[i] != q[i],
    ensures
        cache_key(p, a) != cache_key(q, b),
{
    assert(cache_key(p, a)[i] == p[i]);
    assert(cache_key(q, b)[i] == q[i]);
}

/// The failure counter and the lock of a user never share a key.
pub proof fn lemma_login_keys_differ(u: Seq<char>, v: Seq<char>)
    ensures
        cache_key("login_fail"@, u) != cache_key("login_lock"@, v),
{
    reveal_strlit("login_fail");
    reveal_strlit("login_lock");
    lemma_prefixes_differ("login_fail"@, "login_lock"@, u, v, 6);
}

/// A captcha never shares a key with a login lock.
pub proof fn lemma_captcha_lock_keys_differ(id: Seq<char>, u: Seq<char>)
    ensures
        cache_key("captcha"@, id) != cache_key("login_lock"@, u),
{
    reveal_strlit("captcha");
    reveal_strlit("login_lock");
    lemma_prefixes_differ("captcha"@, "login_lock"@, id, u, 0);
}

} // verus!
