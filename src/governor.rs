//! The login attempt governor: consecutive credential failures per account,
//! kept in the shared cache, and a temporary lock after too many of them.
use vstd::prelude::*;
use crate::cache::{count_in, expiry, live, CacheValue, CachedValue, SharedCache};
use crate::keys::{cache_key, lemma_login_keys_differ, RedisUtils};

verus! {

/// When an account is locked, and for how long.
#[derive(Debug, Clone, Copy, PartialEq, Eq, Structural)]
pub struct LoginPolicy {
    /// Consecutive failures that lock the account.
    pub max_failures: u64,
    /// Seconds that a lock lasts.
    pub lock_secs: u64,
    /// Seconds that a failure counter lasts after its last failure.
    pub window_secs: u64,
}

pub type CacheMap = Map<Seq<char>, (CachedValue, u64)>;

pub open spec fn fail_key(u: Seq<char>) -> Seq<char> {
    cache_key("login_fail"@, u)
}

pub open spec fn lock_key(u: Seq<char>) -> Seq<char> {
    cache_key("login_lock"@, u)
}

/// Whether `u` is locked at `now`.
pub open spec fn is_locked(m: CacheMap, u: Seq<char>, now: u64) -> bool {
    live(m, lock_key(u), now)
}

/// The consecutive failures of `u` counted at `now`.
pub open spec fn failures(m: CacheMap, u: Seq<char>, now: u64) -> u64 {
    count_in(m, fail_key(u), now)
}

/// The cache after a credential failure of `u` at `now`: the counter grows
/// by one; when it reaches the maximum, the lock is set and the counter
/// cleared.
pub open spec fn after_failure(m: CacheMap, u: Seq<char>, now: u64, p: LoginPolicy) -> CacheMap {
    let n = next_count(failures(m, u, now));
    if n >= p.max_failures {
        m.remove(fail_key(u)).insert(
            lock_key(u),
            (CachedValue::Count(expiry(now, p.lock_secs)), expiry(now, p.lock_secs)),
        )
    } else {
        m.insert(fail_key(u), (CachedValue::Count(n), expiry(now, p.window_secs)))
    }
}

/// The cache after a successful login of `u`: the counter is gone.
pub open spec fn after_success(m: CacheMap, u: Seq<char>) -> CacheMap {
    m.remove(fail_key(u))
}

/// What a credential failure does to the cache, given the failures counted
/// before it.
#[derive(Debug, Clone, Copy, PartialEq, Eq, Structural)]
pub enum FailureAction {
    /// Write this count, to live the failure window.
    Count(u64),
    /// Clear the counter and set the lock, to live the lock time.
    Lock,
}

/// The failures counted after one more, held at the largest count.
pub open spec fn next_count(f: u64) -> u64 {
    if f < u64::MAX {
        (f + 1) as u64
    } else {
        u64::MAX
    }
}

/// The decision on a credential failure after `failures` counted ones.
pub fn failure_action(failures: u64, policy: LoginPolicy) -> (r: FailureAction)
    ensures
        r == (if next_count(failures) >= policy.max_failures {
            FailureAction::Lock
        } else {
            FailureAction::Count(next_count(failures))
        }),
{
    let n: u64 = if failures < u64::MAX { failures + 1 } else { u64::MAX };
    if n >= policy.max_failures {
        FailureAction::Lock
    } else {
        FailureAction::Count(n)
    }
}

/// Whether `u` is locked at `now`.
pub fn check_locked(cache: &SharedCache, username: &str, now: u64) -> (r: bool)
    requires
        cache.wf(),
    ensures
        r == is_locked(cache.view(), username@, now),
{
    let key = RedisUtils::build_login_lock_cache_key(username);
    cache.contains(key.as_str(), now)
}

/// Records a credential failure of `username` at `now`; returns whether the
/// account is now locked.
pub fn record_failure(cache: &mut SharedCache, username: &str, now: u64, policy: LoginPolicy) -> (r: bool)
    requires
        old(cache).wf(),
    ensures
        final(cache).wf(),
        final(cache).view() == after_failure(old(cache).view(), username@, now, policy),
        r == (failures(old(cache).view(), username@, now) as int + 1 >= policy.max_failures),
{
    let fail = RedisUtils::build_login_fail_cache_key(username);
    let f = cache.get_count(fail.as_str(), now);
    match failure_action(f, policy) {
        FailureAction::Lock => {
            cache.delete(fail.as_str());
            let lock = RedisUtils::build_login_lock_cache_key(username);
            let until = if policy.lock_secs <= u64::MAX - now { now + policy.lock_secs } else { u64::MAX };
            cache.set(lock.as_str(), CacheValue::Count(until), now, policy.lock_secs);
            true
        },
        FailureAction::Count(n) => {
            cache.set(fail.as_str(), CacheValue::Count(n), now, policy.window_secs);
            false
        },
    }
}

/// Records a successful login of `username`: its counter is cleared.
pub fn record_success(cache: &mut SharedCache, username: &str)
    requires
        old(cache).wf(),
    ensures
        final(cache).wf(),
        final(cache).view() == after_success(old(cache).view(), username@),
{
    let fail = RedisUtils::build_login_fail_cache_key(username);
    cache.delete(fail.as_str());
}

/// Whether a lock read from a cache that may have failed stops the login:
/// only a lock that was read as present does; an unreadable lock state lets
/// the credential check go on.
pub fn lock_blocks(read: Option<bool>) -> (r: bool)
    ensures
        r == (read == Some(true)),
{
    match read {
        Some(locked) => locked,
        None => false,
    }
}

/// The cache after failures of `u` at the times `ts`, in order.
pub open spec fn after_failures(m: CacheMap, u: Seq<char>, ts: Seq<u64>, p: LoginPolicy) -> CacheMap
    decreases ts.len(),
{
    if ts.len() == 0 {
        m
    } else {
        after_failure(after_failures(m, u, ts.drop_last(), p), u, ts.last(), p)
    }
}

/// Times in order, each within the counter's window of the one before.
pub open spec fn within_window(ts: Seq<u64>, p: LoginPolicy) -> bool {
    forall|i: int| 0 < i < ts.len() ==> ts[i - 1] <= #[trigger] ts[i] && ts[i] < expiry(ts[i - 1], p.window_secs)
}

proof fn lemma_window_prefix(ts: Seq<u64>, p: LoginPolicy, k: int)
    requires
        within_window(ts, p),
        0 <= k <= ts.len(),
    ensures
        within_window(ts.subrange(0, k), p),
{
    let t = ts.subrange(0, k);
    assert forall|i: int| 0 < i < t.len() implies t[i - 1] <= #[trigger] t[i] && t[i] < expiry(t[i - 1], p.window_secs) by {
        assert(t[i] == ts[i] && t[i - 1] == ts[i - 1]);
    }
}

proof fn lemma_times_ordered(ts: Seq<u64>, p: LoginPolicy, i: int, j: int)
    requires
        within_window(ts, p),
        0 <= i <= j < ts.len(),
    ensures
        ts[i] <= ts[j],
    decreases j - i,
{
    if i < j {
        lemma_times_ordered(ts, p, i, j - 1);
        assert(ts[j - 1] <= ts[j]);
    }
}

/// Starting with no counted failure and no lock, failures that come within
/// the window of one another are counted one by one: after `k` of them, fewer
/// than the maximum, the account is unlocked and the counter is `k` at the
/// time of the next.
pub proof fn lemma_failures_counted(m: CacheMap, u: Seq<char>, ts: Seq<u64>, p: LoginPolicy, k: int, now: u64)
    requires
        within_window(ts, p),
        ts.len() > 0,
        failures(m, u, ts[0]) == 0,
        !is_locked(m, u, ts[0]),
        0 <= k < p.max_failures,
        k <= ts.len(),
        k > 0 ==> ts[k - 1] <= now < expiry(ts[k - 1], p.window_secs),
        k == 0 ==> now == ts[0],
    ensures
        failures(after_failures(m, u, ts.subrange(0, k), p), u, now) == k,
        !is_locked(after_failures(m, u, ts.subrange(0, k), p), u, now),
    decreases k,
{
    lemma_login_keys_differ(u, u);
    let pre = ts.subrange(0, k);
    if k == 0 {
        assert(pre.len() == 0);
    } else {
        let prev = ts.subrange(0, k - 1);
        assert(pre.drop_last() == prev);
        let t = ts[k - 1];
        if k - 1 > 0 {
            assert(ts[k - 1] < expiry(ts[k - 2], p.window_secs));
            assert(ts[k - 2] <= ts[k - 1]);
        }
        lemma_failures_counted(m, u, ts, p, k - 1, t);
        let before = after_failures(m, u, prev, p);
        assert(failures(before, u, t) == k - 1);
        let e = expiry(t, p.window_secs);
        assert(after_failures(m, u, pre, p) == after_failure(before, u, t, p));
        let after = after_failure(before, u, t, p);
        assert(after == before.insert(fail_key(u), (CachedValue::Count(k as u64), e)));
        assert(after[fail_key(u)] == (CachedValue::Count(k as u64), e));
        assert(live(after, fail_key(u), now));
        // the lock entry is untouched and was not live at the first failure
        if is_locked(after, u, now) {
            assert(is_locked(m, u, now)) by {
                assert(after_failures(m, u, prev, p).contains_key(lock_key(u)));
                lemma_lock_untouched(m, u, ts, p, k - 1);
            }
            lemma_times_ordered(ts, p, 0, k - 1);
        }
    }
}

/// While fewer than the maximum failures are counted, the lock entry stays as
/// it was.
proof fn lemma_lock_untouched(m: CacheMap, u: Seq<char>, ts: Seq<u64>, p: LoginPolicy, k: int)
    requires
        within_window(ts, p),
        ts.len() > 0,
        failures(m, u, ts[0]) == 0,
        !is_locked(m, u, ts[0]),
        0 <= k < p.max_failures,
        k <= ts.len(),
    ensures
        after_failures(m, u, ts.subrange(0, k), p).contains_key(lock_key(u)) == m.contains_key(lock_key(u)),
        m.contains_key(lock_key(u)) ==> after_failures(m, u, ts.subrange(0, k), p)[lock_key(u)] == m[lock_key(u)],
    decreases k,
{
    lemma_login_keys_differ(u, u);
    if k > 0 {
        let pre = ts.subrange(0, k);
        let prev = ts.subrange(0, k - 1);
        assert(pre.drop_last() == prev);
        lemma_lock_untouched(m, u, ts, p, k - 1);
        let t = ts[k - 1];
        if k - 1 > 0 {
            assert(ts[k - 1] < expiry(ts[k - 2], p.window_secs));
            assert(ts[k - 2] <= ts[k - 1]);
        }
        lemma_failures_counted(m, u, ts, p, k - 1, t);
    }
}

/// From no counted failure and no lock, `max_failures` consecutive failures
/// within the window of one another are each counted as a failure, the last
/// one locks the account, and the lock holds until its time has passed, and
/// no longer.
pub proof fn lemma_lockout(m: CacheMap, u: Seq<char>, ts: Seq<u64>, p: LoginPolicy)
    requires
        p.max_failures >= 1,
        ts.len() == p.max_failures,
        within_window(ts, p),
        failures(m, u, ts[0]) == 0,
        !is_locked(m, u, ts[0]),
    ensures
        forall|k: int|
            0 <= k < ts.len() ==> {
                &&& !is_locked(after_failures(m, u, ts.subrange(0, k), p), u, #[trigger] ts[k])
                &&& failures(after_failures(m, u, ts.subrange(0, k), p), u, ts[k]) == k
            },
        forall|now: u64|
            ts.last() <= now < expiry(ts.last(), p.lock_secs) ==> is_locked(
                after_failures(m, u, ts, p),
                u,
                now,
            ),
        forall|now: u64| now >= expiry(ts.last(), p.lock_secs) ==> !is_locked(after_failures(m, u, ts, p), u, now),
{
    assert forall|k: int| 0 <= k < ts.len() implies {
        &&& !is_locked(after_failures(m, u, ts.subrange(0, k), p), u, #[trigger] ts[k])
        &&& failures(after_failures(m, u, ts.subrange(0, k), p), u, ts[k]) == k
    } by {
        if k > 0 {
            assert(ts[k - 1] <= ts[k] && ts[k] < expiry(ts[k - 1], p.window_secs));
        }
        lemma_failures_counted(m, u, ts, p, k, ts[k]);
    }
    let n = ts.len() - 1;
    let t = ts[n];
    lemma_failures_counted(m, u, ts, p, n, t);
    assert(ts.subrange(0, n) == ts.drop_last());
    assert(ts.subrange(0, n + 1) == ts);
    lemma_login_keys_differ(u, u);
}

/// A successful login leaves no counted failure, so that from there the
/// account locks again only after `max_failures` more consecutive failures.
pub proof fn lemma_success_resets(m: CacheMap, u: Seq<char>, t0: u64, ts: Seq<u64>, p: LoginPolicy)
    requires
        !is_locked(m, u, t0),
        p.max_failures >= 1,
        ts.len() == p.max_failures,
        within_window(ts, p),
        t0 <= ts[0],
    ensures
        forall|now: u64| failures(after_success(m, u), u, now) == 0,
        forall|k: int|
            0 <= k < ts.len() ==> {
                &&& !is_locked(after_failures(after_success(m, u), u, ts.subrange(0, k), p), u, #[trigger] ts[k])
                &&& failures(after_failures(after_success(m, u), u, ts.subrange(0, k), p), u, ts[k]) == k
            },
        forall|now: u64|
            ts.last() <= now < expiry(ts.last(), p.lock_secs) ==> is_locked(
                after_failures(after_success(m, u), u, ts, p),
                u,
                now,
            ),
{
    lemma_login_keys_differ(u, u);
    let m1 = after_success(m, u);
    assert(!is_locked(m1, u, ts[0]));
    assert(failures(m1, u, ts[0]) == 0);
    lemma_lockout(m1, u, ts, p);
}

} // verus!
