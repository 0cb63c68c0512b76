//! An in-process stand-in for the shared cache: string keys, each with a
//! value and an expiry time. An entry whose expiry time has come is absent.
use vstd::prelude::*;
use crate::text::str_eq;

verus! {

/// A cached value: a text (a captcha answer) or a count.
pub enum CacheValue {
    Text(String),
    Count(u64),
}

/// What a cached value holds.
pub enum CachedValue {
    Text(Seq<char>),
    Count(u64),
}

impl View for CacheValue {
    type V = CachedValue;

    open spec fn view(&self) -> CachedValue {
        match self {
            CacheValue::Text(s) => CachedValue::Text(s@),
            CacheValue::Count(n) => CachedValue::Count(*n),
        }
    }
}

pub struct CacheEntry {
    pub key: String,
    pub value: CacheValue,
    /// The first second at which the entry is gone.
    pub expires_at: u64,
}

/// The key/value store with per-key expiry.
pub struct SharedCache {
    entries: Vec<CacheEntry>,
}

/// The expiry time of an entry written at `now` with a time to live of `ttl`
/// seconds; at the end of time it saturates.
pub open spec fn expiry(now: u64, ttl: u64) -> u64 {
    if now + ttl <= u64::MAX {
        (now + ttl) as u64
    } else {
        u64::MAX
    }
}

/// Whether `k` holds an entry that has not expired at `now`.
pub open spec fn live(m: Map<Seq<char>, (CachedValue, u64)>, k: Seq<char>, now: u64) -> bool {
    m.contains_key(k) && now < m[k].1
}

pub open spec fn unique_keys(s: Seq<CacheEntry>) -> bool {
    forall|i: int, j: int| 0 <= i < j < s.len() ==> s[i].key@ != s[j].key@
}

pub open spec fn key_at(s: Seq<CacheEntry>, k: Seq<char>, i: int) -> bool {
    0 <= i < s.len() && s[i].key@ == k
}

/// The entries of `s` as a map from key to value and expiry time.
pub open spec fn map_of(s: Seq<CacheEntry>) -> Map<Seq<char>, (CachedValue, u64)> {
    Map::new(
        |k: Seq<char>| exists|i: int| key_at(s, k, i),
        |k: Seq<char>|
            {
                let i = choose|i: int| key_at(s, k, i);
                (s[i].value@, s[i].expires_at)
            },
    )
}

proof fn lemma_map_of_at(s: Seq<CacheEntry>, i: int)
    requires
        unique_keys(s),
        0 <= i < s.len(),
    ensures
        map_of(s).contains_key(s[i].key@),
        map_of(s)[s[i].key@] == (s[i].value@, s[i].expires_at),
{
    let k = s[i].key@;
    assert(key_at(s, k, i));
    let j = choose|j: int| key_at(s, k, j);
    assert(key_at(s, k, j));
    if i < j {
        assert(s[i].key@ != s[j].key@);
    } else if j < i {
        assert(s[j].key@ != s[i].key@);
    }
}

proof fn lemma_map_of_update(s: Seq<CacheEntry>, i: int, e: CacheEntry)
    requires
        unique_keys(s),
        0 <= i < s.len(),
        e.key@ == s[i].key@,
    ensures
        unique_keys(s.update(i, e)),
        map_of(s.update(i, e)) == map_of(s).insert(e.key@, (e.value@, e.expires_at)),
{
    let t = s.update(i, e);
    assert forall|a: int, b: int| 0 <= a < b < t.len() implies t[a].key@ != t[b].key@ by {
        assert(s[a].key@ != s[b].key@);
    }
    let m = map_of(s).insert(e.key@, (e.value@, e.expires_at));
    assert forall|k: Seq<char>| #[trigger] map_of(t).contains_key(k) <==> m.contains_key(k) by {
        if map_of(t).contains_key(k) {
            let j = choose|j: int| key_at(t, k, j);
            if j != i {
                assert(key_at(s, k, j));
            }
        }
        if m.contains_key(k) && k != e.key@ {
            let j = choose|j: int| key_at(s, k, j);
            assert(key_at(t, k, j));
        }
        if k == e.key@ {
            assert(key_at(t, k, i));
        }
    }
    assert forall|k: Seq<char>| #[trigger] map_of(t).contains_key(k) implies map_of(t)[k] == m[k] by {
        let j = choose|j: int| key_at(t, k, j);
        assert(key_at(t, k, j));
        lemma_map_of_at(t, j);
        if j != i {
            lemma_map_of_at(s, j);
        }
    }
    assert(map_of(t) =~= m);
}

proof fn lemma_map_of_push(s: Seq<CacheEntry>, e: CacheEntry)
    requires
        unique_keys(s),
        forall|i: int| 0 <= i < s.len() ==> s[i].key@ != e.key@,
    ensures
        unique_keys(s.push(e)),
        map_of(s.push(e)) == map_of(s).insert(e.key@, (e.value@, e.expires_at)),
{
    let t = s.push(e);
    let n = s.len() as int;
    assert forall|a: int, b: int| 0 <= a < b < t.len() implies t[a].key@ != t[b].key@ by {
        if b < n {
            assert(s[a].key@ != s[b].key@);
        }
    }
    let m = map_of(s).insert(e.key@, (e.value@, e.expires_at));
    assert forall|k: Seq<char>| #[trigger] map_of(t).contains_key(k) <==> m.contains_key(k) by {
        if map_of(t).contains_key(k) && k != e.key@ {
            let j = choose|j: int| key_at(t, k, j);
            assert(key_at(s, k, j));
        }
        if m.contains_key(k) && k != e.key@ {
            let j = choose|j: int| key_at(s, k, j);
            assert(key_at(t, k, j));
        }
        if k == e.key@ {
            assert(key_at(t, k, n));
        }
    }
    assert forall|k: Seq<char>| #[trigger] map_of(t).contains_key(k) implies map_of(t)[k] == m[k] by {
        let j = choose|j: int| key_at(t, k, j);
        assert(key_at(t, k, j));
        lemma_map_of_at(t, j);
        if j != n {
            lemma_map_of_at(s, j);
        }
    }
    assert(map_of(t) =~= m);
}

proof fn lemma_map_of_remove(s: Seq<CacheEntry>, i: int)
    requires
        unique_keys(s),
        0 <= i < s.len(),
    ensures
        unique_keys(s.remove(i)),
        map_of(s.remove(i)) == map_of(s).remove(s[i].key@),
{
    let t = s.remove(i);
    let k0 = s[i].key@;
    assert forall|a: int, b: int| 0 <= a < b < t.len() implies t[a].key@ != t[b].key@ by {
        let a2 = if a < i { a } else { a + 1 };
        let b2 = if b < i { b } else { b + 1 };
        assert(t[a] == s[a2] && t[b] == s[b2]);
        assert(s[a2].key@ != s[b2].key@);
    }
    let m = map_of(s).remove(k0);
    assert forall|k: Seq<char>| #[trigger] map_of(t).contains_key(k) <==> m.contains_key(k) by {
        if map_of(t).contains_key(k) {
            let j = choose|j: int| key_at(t, k, j);
            let j2 = if j < i { j } else { j + 1 };
            assert(t[j] == s[j2]);
            assert(key_at(s, k, j2));
            if k == k0 {
                assert(s[j2].key@ == s[i].key@);
                if j2 < i {
                    assert(s[j2].key@ != s[i].key@);
                } else {
                    assert(s[i].key@ != s[j2].key@);
                }
            }
        }
        if m.contains_key(k) {
            let j = choose|j: int| key_at(s, k, j);
            assert(j != i);
            let j2 = if j < i { j } else { j - 1 };
            assert(t[j2] == s[j]);
            assert(key_at(t, k, j2));
        }
    }
    assert forall|k: Seq<char>| #[trigger] map_of(t).contains_key(k) implies map_of(t)[k] == m[k] by {
        let j = choose|j: int| key_at(t, k, j);
        assert(key_at(t, k, j));
        lemma_map_of_at(t, j);
        let j2 = if j < i { j } else { j + 1 };
        assert(t[j] == s[j2]);
        lemma_map_of_at(s, j2);
    }
    assert(map_of(t) =~= m);
}

impl SharedCache {
    pub closed spec fn wf(&self) -> bool {
        unique_keys(self.entries@)
    }

    /// Every entry, expired or not, with its expiry time.
    pub closed spec fn view(&self) -> Map<Seq<char>, (CachedValue, u64)> {
        map_of(self.entries@)
    }

    pub fn new() -> (c: SharedCache)
        ensures
            c.wf(),
            c.view() == Map::<Seq<char>, (CachedValue, u64)>::empty(),
    {
        let c = SharedCache { entries: Vec::new() };
        assert(map_of(c.entries@) =~= Map::<Seq<char>, (CachedValue, u64)>::empty());
        c
    }

    fn find(&self, key: &str) -> (r: Option<usize>)
        ensures
            match r {
                Some(i) => i < self.entries@.len() && self.entries@[i as int].key@ == key@,
                None => !self.view().contains_key(key@),
            },
    {
        let mut i: usize = 0;
        while i < self.entries.len()
            invariant
                i <= self.entries@.len(),
                forall|j: int| 0 <= j < i ==> self.entries@[j].key@ != key@,
            decreases self.entries.len() - i,
        {
            if str_eq(self.entries[i].key.as_str(), key) {
                return Some(i);
            }
            i = i + 1;
        }
        assert(!self.view().contains_key(key@)) by {
            if self.view().contains_key(key@) {
                let j = choose|j: int| key_at(self.entries@, key@, j);
                assert(self.entries@[j].key@ != key@);
            }
        }
        None
    }

    /// Writes `value` under `key`, to live `ttl` seconds from `now`.
    pub fn set(&mut self, key: &str, value: CacheValue, now: u64, ttl: u64)
        requires
            old(self).wf(),
        ensures
            final(self).wf(),
            final(self).view() == old(self).view().insert(key@, (value@, expiry(now, ttl))),
    {
        let expires_at = if ttl <= u64::MAX - now { now + ttl } else { u64::MAX };
        let entry = CacheEntry { key: key.to_owned(), value, expires_at };
        let ghost before = self.entries@;
        match self.find(key) {
            Some(i) => {
                proof {
                    lemma_map_of_update(before, i as int, entry);
                }
                self.entries.set(i, entry);
            },
            None => {
                proof {
                    assert forall|j: int| 0 <= j < before.len() implies before[j].key@ != key@ by {
                        lemma_map_of_at(before, j);
                    }
                    lemma_map_of_push(before, entry);
                }
                self.entries.push(entry);
            },
        }
    }

    /// Removes the entry under `key`, if any, and hands it back if it was
    /// live at `now`: one step, so that a value is read at most once.
    pub fn take(&mut self, key: &str, now: u64) -> (r: Option<CacheValue>)
        requires
            old(self).wf(),
        ensures
            final(self).wf(),
            final(self).view() == old(self).view().remove(key@),
            match r {
                Some(v) => live(old(self).view(), key@, now) && old(self).view()[key@].0 == v@,
                None => !live(old(self).view(), key@, now),
            },
    {
        let ghost before = self.entries@;
        match self.find(key) {
            Some(i) => {
                proof {
                    lemma_map_of_remove(before, i as int);
                    lemma_map_of_at(before, i as int);
                }
                let entry = self.entries.remove(i);
                if now < entry.expires_at {
                    Some(entry.value)
                } else {
                    None
                }
            },
            None => {
                assert(map_of(before).remove(key@) =~= map_of(before));
                None
            },
        }
    }

    /// Removes the entry under `key`, if any.
    pub fn delete(&mut self, key: &str)
        requires
            old(self).wf(),
        ensures
            final(self).wf(),
            final(self).view() == old(self).view().remove(key@),
    {
        let _ = self.take(key, 0);
    }

    /// Whether `key` holds a live entry at `now`.
    pub fn contains(&self, key: &str, now: u64) -> (r: bool)
        requires
            self.wf(),
        ensures
            r == live(self.view(), key@, now),
    {
        match self.find(key) {
            Some(i) => {
                proof {
                    lemma_map_of_at(self.entries@, i as int);
                }
                now < self.entries[i].expires_at
            },
            None => false,
        }
    }

    /// The count under `key` at `now`: zero when the key is absent, expired
    /// or holds a text.
    pub fn get_count(&self, key: &str, now: u64) -> (r: u64)
        requires
            self.wf(),
        ensures
            r == count_in(self.view(), key@, now),
    {
        match self.find(key) {
            Some(i) => {
                proof {
                    lemma_map_of_at(self.entries@, i as int);
                }
                if now < self.entries[i].expires_at {
                    match &self.entries[i].value {
                        CacheValue::Count(n) => *n,
                        CacheValue::Text(_) => 0,
                    }
                } else {
                    0
                }
            },
            None => 0,
        }
    }
}

/// The live count under `k` at `now`, zero where there is none.
pub open spec fn count_in(m: Map<Seq<char>, (CachedValue, u64)>, k: Seq<char>, now: u64) -> u64 {
    if live(m, k, now) {
        match m[k].0 {
            CachedValue::Count(n) => n,
            CachedValue::Text(_) => 0,
        }
    } else {
        0
    }
}

} // verus!
