//! The in-memory cache of karma query results: entries expire after five
//! minutes, and the whole cache is cleared once it holds more than fifty.
use vstd::prelude::*;
use crate::text::str_eq;

verus! {

/// How long a cached result stays fresh, in milliseconds.
pub const KARMA_CACHE_TTL_MS: u64 = 300_000;

/// Above this many entries an insertion first clears the cache.
pub const KARMA_CACHE_MAX: usize = 50;

/// Cached values by key, each with the time it was stored.
pub struct KarmaCache<V> {
    entries: Vec<(String, V, u64)>,
}

/// The index of the entry for `key`, if any.
pub open spec fn index_of<V>(entries: Seq<(String, V, u64)>, key: Seq<char>) -> Option<int>
    decreases entries.len(),
{
    if entries.len() == 0 {
        None
    } else if entries.last().0@ == key {
        Some(entries.len() - 1)
    } else {
        index_of(entries.drop_last(), key)
    }
}

/// A stored entry is fresh at `now` while less than the TTL has passed
/// since it was stored (a clock reading before the store counts as no time).
pub open spec fn fresh(stored_at: u64, now: u64) -> bool {
    now < stored_at || now - stored_at < KARMA_CACHE_TTL_MS
}

impl<V> KarmaCache<V> {
    /// No two entries share a key.
    #[verifier::type_invariant]
    closed spec fn keys_distinct(self) -> bool {
        forall|i: int, j: int|
            0 <= i < j < self.entries@.len() ==> #[trigger] self.entries@[i].0@ != #[trigger] self.entries@[j].0@
    }

    /// The value stored under `key` and when, if any.
    pub closed spec fn entry(&self, key: Seq<char>) -> Option<(V, u64)> {
        match index_of(self.entries@, key) {
            Some(i) => Some((self.entries@[i].1, self.entries@[i].2)),
            None => None,
        }
    }

    /// What a read of `key` at `now` answers: the stored value while fresh.
    pub open spec fn lookup(&self, key: Seq<char>, now: u64) -> Option<V> {
        match self.entry(key) {
            Some((v, t)) => if fresh(t, now) {
                Some(v)
            } else {
                None
            },
            None => None,
        }
    }

    /// The number of keys held.
    pub closed spec fn size(&self) -> nat {
        self.entries@.len()
    }

    /// An empty cache.
    pub fn new() -> (r: Self)
        ensures
            r.size() == 0,
            forall|k: Seq<char>| r.entry(k) is None,
    {
        KarmaCache { entries: Vec::new() }
    }

    /// The number of keys held.
    pub fn len(&self) -> (r: usize)
        ensures
            r == self.size(),
    {
        self.entries.len()
    }

    fn find(&self, key: &str) -> (r: Option<usize>)
        ensures
            match r {
                Some(i) => index_of(self.entries@, key@) == Some(i as int) && i < self.entries@.len(),
                None => index_of(self.entries@, key@) is None,
            },
    {
        let mut i: usize = self.entries.len();
        proof {
            assert(self.entries@.take(i as int) =~= self.entries@);
        }
        while i > 0
            invariant
                i <= self.entries@.len(),
                index_of(self.entries@, key@) == index_of(self.entries@.take(i as int), key@),
            decreases i,
        {
            proof {
                assert(self.entries@.take(i as int).drop_last() =~= self.entries@.take(i - 1));
            }
            if str_eq(self.entries[i - 1].0.as_str(), key) {
                return Some(i - 1);
            }
            i = i - 1;
        }
        None
    }

    /// The value cached under `key`, when it is still fresh at `now_ms`.
    pub fn get(&self, key: &str, now_ms: u64) -> (r: Option<&V>)
        ensures
            match self.lookup(key@, now_ms) {
                Some(v) => r == Some(&v),
                None => r is None,
            },
    {
        match self.find(key) {
            Some(i) => {
                let t = self.entries[i].2;
                if now_ms < t || now_ms - t < KARMA_CACHE_TTL_MS {
                    Some(&self.entries[i].1)
                } else {
                    None
                }
            },
            None => None,
        }
    }

    /// Stores `value` under `key` at `now_ms`, replacing any entry for the
    /// key; a cache holding more than `KARMA_CACHE_MAX` keys is cleared first.
    pub fn insert(&mut self, key: String, value: V, now_ms: u64)
        ensures
            final(self).entry(key@) == Some((value, now_ms)),
            old(self).size() > KARMA_CACHE_MAX ==> final(self).size() == 1,
            old(self).size() > KARMA_CACHE_MAX ==> forall|k: Seq<char>| k != key@ ==> final(self).entry(k) is None,
            old(self).size() <= KARMA_CACHE_MAX ==> forall|k: Seq<char>|
                k != key@ ==> final(self).entry(k) == old(self).entry(k),
            old(self).size() <= KARMA_CACHE_MAX ==> final(self).size() == old(self).size() + (if old(self).entry(
                key@,
            ) is Some {
                0int
            } else {
                1int
            }),
    {
        proof {
            use_type_invariant(&*self);
        }
        if self.entries.len() > KARMA_CACHE_MAX {
            self.entries = Vec::new();
        }
        let ghost before = self.entries@;
        match self.find(key.as_str()) {
            Some(i) => {
                let ghost k = key@;
                proof {
                    lemma_index_of_found(before, k, i as int);
                }
                let mut entries: Vec<(String, V, u64)> = Vec::new();
                std::mem::swap(&mut entries, &mut self.entries);
                entries.set(i, (key, value, now_ms));
                proof {
                    lemma_index_after_set(before, k, i as int, entries@);
                    assert forall|k2: Seq<char>| k2 != k implies #[trigger] index_of(entries@, k2) matches Some(j)
                        ==> entries@[j] == before[j] by {
                        if let Some(j) = index_of(before, k2) {
                            lemma_index_of_found(before, k2, j);
                        }
                    }
                }
                self.entries = entries;
            },
            None => {
                let ghost k = key@;
                proof {
                    lemma_index_of_absent(before, k);
                }
                let mut entries: Vec<(String, V, u64)> = Vec::new();
                std::mem::swap(&mut entries, &mut self.entries);
                entries.push((key, value, now_ms));
                proof {
                    lemma_index_after_push(before, k, entries@);
                    assert forall|k2: Seq<char>| k2 != k implies #[trigger] index_of(entries@, k2) matches Some(j)
                        ==> entries@[j] == before[j] by {
                        if let Some(j) = index_of(before, k2) {
                            lemma_index_of_found(before, k2, j);
                        }
                    }
                }
                self.entries = entries;
            },
        }
    }
}

proof fn lemma_index_of_found<V>(entries: Seq<(String, V, u64)>, key: Seq<char>, i: int)
    requires
        index_of(entries, key) == Some(i),
    ensures
        0 <= i < entries.len(),
        entries[i].0@ == key,
    decreases entries.len(),
{
    if entries.last().0@ != key {
        lemma_index_of_found(entries.drop_last(), key, i);
    }
}

proof fn lemma_index_of_absent<V>(entries: Seq<(String, V, u64)>, key: Seq<char>)
    requires
        index_of(entries, key) is None,
    ensures
        forall|j: int| 0 <= j < entries.len() ==> entries[j].0@ != key,
    decreases entries.len(),
{
    if entries.len() > 0 {
        lemma_index_of_absent(entries.drop_last(), key);
        assert forall|j: int| 0 <= j < entries.len() implies entries[j].0@ != key by {
            if j < entries.len() - 1 {
                assert(entries.drop_last()[j] == entries[j]);
            }
        }
    }
}

proof fn lemma_index_of_unique<V>(entries: Seq<(String, V, u64)>, key: Seq<char>, i: int)
    requires
        0 <= i < entries.len(),
        entries[i].0@ == key,
        forall|a: int, b: int| 0 <= a < b < entries.len() ==> #[trigger] entries[a].0@ != #[trigger] entries[b].0@,
    ensures
        index_of(entries, key) == Some(i),
    decreases entries.len(),
{
    if i < entries.len() - 1 {
        assert(entries.last().0@ != key) by {
            assert(entries[entries.len() - 1] == entries.last());
        }
        lemma_index_of_unique(entries.drop_last(), key, i);
    }
}

proof fn lemma_index_of_none<V>(entries: Seq<(String, V, u64)>, key: Seq<char>)
    requires
        forall|j: int| 0 <= j < entries.len() ==> entries[j].0@ != key,
    ensures
        index_of(entries, key) is None,
    decreases entries.len(),
{
    if entries.len() > 0 {
        assert(entries.last() == entries[entries.len() - 1]);
        lemma_index_of_none(entries.drop_last(), key);
    }
}

proof fn lemma_index_after_set<V>(before: Seq<(String, V, u64)>, key: Seq<char>, i: int, after: Seq<(String, V, u64)>)
    requires
        0 <= i < before.len(),
        before[i].0@ == key,
        after.len() == before.len(),
        after[i].0@ == key,
        forall|j: int| 0 <= j < before.len() && j != i ==> after[j] == before[j],
        forall|a: int, b: int| 0 <= a < b < before.len() ==> #[trigger] before[a].0@ != #[trigger] before[b].0@,
    ensures
        forall|a: int, b: int| 0 <= a < b < after.len() ==> #[trigger] after[a].0@ != #[trigger] after[b].0@,
        index_of(after, key) == Some(i),
        forall|k: Seq<char>| k != key ==> index_of(after, k) == index_of(before, k),
{
    assert forall|a: int, b: int| 0 <= a < b < after.len() implies #[trigger] after[a].0@ != #[trigger] after[b].0@ by {
        if a == i {
            assert(before[b].0@ != before[i].0@);
        } else if b == i {
            assert(before[a].0@ != before[i].0@);
        } else {
            assert(before[a].0@ != before[b].0@);
        }
    }
    lemma_index_of_unique(after, key, i);
    assert forall|k: Seq<char>| k != key implies index_of(after, k) == index_of(before, k) by {
        lemma_same_index_except(before, after, key, k);
    }
}

proof fn lemma_same_index_except<V>(
    before: Seq<(String, V, u64)>,
    after: Seq<(String, V, u64)>,
    key: Seq<char>,
    k: Seq<char>,
)
    requires
        k != key,
        after.len() == before.len(),
        forall|j: int| 0 <= j < before.len() ==> (after[j].0@ == k) == (before[j].0@ == k),
        forall|j: int| 0 <= j < before.len() && before[j].0@ == k ==> after[j] == before[j],
    ensures
        index_of(after, k) == index_of(before, k),
    decreases before.len(),
{
    if before.len() > 0 {
        assert(after.last() == after[after.len() - 1]);
        assert(before.last() == before[before.len() - 1]);
        lemma_same_index_except(before.drop_last(), after.drop_last(), key, k);
    }
}

proof fn lemma_index_after_push<V>(before: Seq<(String, V, u64)>, key: Seq<char>, after: Seq<(String, V, u64)>)
    requires
        forall|j: int| 0 <= j < before.len() ==> before[j].0@ != key,
        after.len() == before.len() + 1,
        after[before.len() as int].0@ == key,
        forall|j: int| 0 <= j < before.len() ==> after[j] == before[j],
        forall|a: int, b: int| 0 <= a < b < before.len() ==> #[trigger] before[a].0@ != #[trigger] before[b].0@,
    ensures
        forall|a: int, b: int| 0 <= a < b < after.len() ==> #[trigger] after[a].0@ != #[trigger] after[b].0@,
        index_of(after, key) == Some(before.len() as int),
        forall|k: Seq<char>| k != key ==> index_of(after, k) == index_of(before, k),
{
    assert(after.drop_last() =~= before);
    assert forall|a: int, b: int| 0 <= a < b < after.len() implies #[trigger] after[a].0@ != #[trigger] after[b].0@ by {
        if b == before.len() {
            assert(after[a] == before[a]);
        } else {
            assert(after[a] == before[a]);
            assert(after[b] == before[b]);
        }
    }
    assert(after.last() == after[before.len() as int]);
}

/// What a read gives back of a write: once `value` is stored under `key`
/// at `t` (as `insert` ensures), a read of `key` before the TTL has run out
/// answers `value`, and a read after it answers nothing.
pub proof fn law_read_after_write<V>(cache: KarmaCache<V>, key: Seq<char>, value: V, t: u64, now: u64)
    requires
        cache.entry(key) == Some((value, t)),
        t <= now,
    ensures
        now - t < KARMA_CACHE_TTL_MS ==> cache.lookup(key, now) == Some(value),
        now - t >= KARMA_CACHE_TTL_MS ==> cache.lookup(key, now) is None,
{
}

} // verus!
