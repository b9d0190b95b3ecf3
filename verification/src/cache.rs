//! Time- and capacity-bounded cache of crawl results.
//!
//! Each entry expires a fixed number of seconds after insertion (time to
//! live, not time to idle), and the entry count never exceeds the configured
//! capacity.  A zero time to live or a zero capacity degrades to an
//! always-miss cache rather than failing.  The exact eviction order under
//! capacity pressure is deliberately unspecified: the contract of `put` only
//! promises that at most one existing entry makes way for the new one.
//!
//! Time enters every operation as an explicit count of elapsed seconds, so
//! the caller decides the clock and the contracts quantify over it.

use vstd::prelude::*;

use crate::CachedResult;

verus! {

/// One stored crawl result together with the second at which it was inserted.
pub struct CacheEntry {
    pub source: String,
    pub content: String,
    pub inserted_at: u64,
}

/// The first entry of `s` whose source equals `k`, if any.  Entries are kept
/// with distinct sources, so this is the entry for `k`.
pub open spec fn entry_for(s: Seq<CacheEntry>, k: Seq<char>) -> Option<CacheEntry>
    decreases s.len(),
{
    if s.len() == 0 {
        None
    } else if s[0].source@ == k {
        Some(s[0])
    } else {
        entry_for(s.drop_first(), k)
    }
}

/// No two entries share a source.
pub open spec fn distinct_sources(s: Seq<CacheEntry>) -> bool {
    forall|i: int, j: int|
        0 <= i < s.len() && 0 <= j < s.len() && i != j ==> s[i].source@ != s[j].source@
}

/// An entry inserted at `e.inserted_at` is still alive at second `now` under
/// time to live `ttl`: fewer than `ttl` seconds have elapsed.  A `ttl` of
/// zero keeps nothing alive.
pub open spec fn fresh_at(e: CacheEntry, ttl: u64, now: int) -> bool {
    e.inserted_at <= now < e.inserted_at + ttl
}

/// Everything a store of `content` under `key` at second `now` guarantees
/// about the cache before (`pre`) and after (`post`) the call.  When the
/// cache is disabled, nothing changes.  Otherwise the entry for `key` is
/// present afterwards with exactly this content and this insertion second;
/// every other surviving entry was already there, unchanged; and nothing
/// is evicted unless the cache was full without an entry for `key`, in
/// which case exactly one old entry makes way.
pub open spec fn put_effect(
    pre: CrawlCache,
    post: CrawlCache,
    key: Seq<char>,
    content: Seq<char>,
    now: int,
) -> bool {
    &&& post.ttl() == pre.ttl()
    &&& post.max() == pre.max()
    &&& pre.disabled() ==> post@ == pre@
    &&& !pre.disabled() ==> (match entry_for(post@, key) {
        Some(e) => e.source@ == key && e.content@ == content && e.inserted_at == now,
        None => false,
    })
    &&& !pre.disabled() ==> (forall|k: Seq<char>|
        k != key && entry_for(post@, k) is Some ==> entry_for(post@, k) == entry_for(pre@, k))
    &&& !pre.disabled() && (entry_for(pre@, key) is Some || pre@.len() < pre.max() as int) ==> (
    forall|k: Seq<char>| k != key ==> entry_for(post@, k) == entry_for(pre@, k))
    &&& !pre.disabled() && entry_for(pre@, key) is None && pre@.len() >= pre.max() as int ==> (
    exists|v: Seq<char>|
        v != key && entry_for(pre@, v) is Some && entry_for(post@, v) is None && (forall|
            k: Seq<char>,
        |
            k != key && k != v ==> entry_for(post@, k) == entry_for(pre@, k)))
}

/// The cache: a list of entries with distinct sources, bounded by
/// `max_entries`, each stamped with its insertion second.
pub struct CrawlCache {
    entries: Vec<CacheEntry>,
    ttl_seconds: u64,
    max_entries: u64,
}

impl View for CrawlCache {
    type V = Seq<CacheEntry>;

    closed spec fn view(&self) -> Seq<CacheEntry> {
        self.entries@
    }
}

impl CrawlCache {
    /// The configured entry lifetime in seconds.
    pub closed spec fn ttl(self) -> u64 {
        self.ttl_seconds
    }

    /// The configured capacity.
    pub closed spec fn max(self) -> u64 {
        self.max_entries
    }

    /// A zero lifetime or a zero capacity disables the cache entirely.
    pub open spec fn disabled(self) -> bool {
        self.ttl() == 0 || self.max() == 0
    }

    /// Well-formed: sources are distinct and the capacity bound holds.
    pub open spec fn wf(self) -> bool {
        &&& distinct_sources(self@)
        &&& self@.len() <= self.max() as int
    }

    /// What a lookup of `k` at second `now` yields: the stored content when
    /// an entry for `k` exists and is still alive, absent otherwise.
    pub open spec fn lookup(self, k: Seq<char>, now: int) -> Option<Seq<char>> {
        match entry_for(self@, k) {
            Some(e) => if fresh_at(e, self.ttl(), now) {
                Some(e.content@)
            } else {
                None
            },
            None => None,
        }
    }

    /// An empty cache with the given lifetime and capacity.
    pub fn new(ttl_seconds: u64, max_entries: u64) -> (c: CrawlCache)
        ensures
            c.wf(),
            c@ == Seq::<CacheEntry>::empty(),
            c.ttl() == ttl_seconds,
            c.max() == max_entries,
    {
        let c = CrawlCache { entries: Vec::new(), ttl_seconds, max_entries };
        proof {
            assert(c@ =~= Seq::<CacheEntry>::empty());
        }
        c
    }

    /// The number of entries currently held.
    pub fn len(&self) -> (n: usize)
        ensures
            n == self@.len(),
    {
        self.entries.len()
    }

    /// The configured entry lifetime in seconds.
    pub fn ttl_seconds(&self) -> (t: u64)
        ensures
            t == self.ttl(),
    {
        self.ttl_seconds
    }

    /// The configured capacity.
    pub fn max_entries(&self) -> (m: u64)
        ensures
            m == self.max(),
    {
        self.max_entries
    }

    /// The position of the entry for `url`, tied to the `entry_for` model.
    fn index_of(&self, url: &String) -> (r: Option<usize>)
        ensures
            match r {
                Some(i) => i < self@.len() && self@[i as int].source@ == url@
                    && entry_for(self@, url@) == Some(self@[i as int]),
                None => entry_for(self@, url@) is None,
            },
    {
        let n = self.entries.len();
        let mut i: usize = 0;
        while i < n
            invariant
                n == self@.len(),
                i <= n,
                forall|j: int| 0 <= j < i ==> self@[j].source@ != url@,
            decreases n - i,
        {
            if self.entries[i].source == *url {
                proof {
                    lemma_entry_for_found(self@, url@, i as int);
                }
                return Some(i);
            }
            i += 1;
        }
        proof {
            lemma_entry_for_absent(self@, url@);
        }
        None
    }

    /// Looks up `url` at second `now`.  Returns the cached result exactly
    /// when an entry for `url` is present and still alive, and absent
    /// otherwise — in particular always absent once strictly more than
    /// `ttl` seconds have elapsed since the insertion, and always absent
    /// when the cache is disabled.
    pub fn get(&self, url: &String, now: u64) -> (r: Option<CachedResult>)
        ensures
            match r {
                Some(v) => self.lookup(url@, now as int) == Some(v.content@)
                    && v.source@ == url@,
                None => self.lookup(url@, now as int) is None,
            },
    {
        match self.index_of(url) {
            Some(i) => {
                let e = &self.entries[i];
                if now >= e.inserted_at && now - e.inserted_at < self.ttl_seconds {
                    Some(CachedResult { source: e.source.clone(), content: e.content.clone() })
                } else {
                    None
                }
            }
            None => None,
        }
    }

    /// Stores `res` under its source at second `now`.  When the cache is
    /// disabled this is a no-op.  Otherwise the new entry is present
    /// afterwards; no entry appears out of nowhere; and nothing is evicted
    /// unless the cache was full and lacked an entry for this source, in
    /// which case exactly one old entry makes way.
    pub fn put(&mut self, res: CachedResult, now: u64)
        requires
            old(self).wf(),
        ensures
            final(self).wf(),
            put_effect(*old(self), *final(self), res.source@, res.content@, now as int),
    {
        if self.ttl_seconds == 0 || self.max_entries == 0 {
            return ;
        }
        let ghost before = self@;
        let ghost key = res.source@;
        match self.index_of(&res.source) {
            Some(i) => {
                self.entries.remove(i);
                proof {
                    assert(distinct_sources(self@)) by {
                        assert(forall|j: int| 0 <= j < i ==> #[trigger] self@[j] == before[j]);
                        assert(forall|j: int|
                            i <= j < self@.len() ==> #[trigger] self@[j] == before[j + 1]);
                    }
                    assert(entry_for(self@, key) is None) by {
                        assert(forall|j: int|
                            0 <= j < self@.len() ==> self@[j].source@ != key) by {
                            assert(forall|j: int| 0 <= j < i ==> #[trigger] self@[j] == before[j]);
                            assert(forall|j: int|
                                i <= j < self@.len() ==> #[trigger] self@[j] == before[j + 1]);
                        }
                        lemma_entry_for_absent(self@, key);
                    }
                    assert forall|k: Seq<char>| k != key implies entry_for(self@, k) == entry_for(
                        before,
                        k,
                    ) by {
                        lemma_entry_for_remove_preserves(before, i as int, k);
                    }
                }
            }
            None => {
                if self.entries.len() as u64 >= self.max_entries {
                    let ghost victim = before[0].source@;
                    self.entries.remove(0);
                    proof {
                        assert(self@ =~= before.drop_first());
                        lemma_entry_for_found(before, victim, 0);
                        assert(victim != key);
                        assert(forall|j: int|
                            0 <= j < self@.len() ==> #[trigger] self@[j] == before[j + 1]);
                        assert(distinct_sources(self@));
                        assert(entry_for(self@, victim) is None) by {
                            assert(forall|j: int|
                                0 <= j < self@.len() ==> self@[j].source@ != victim);
                            lemma_entry_for_absent(self@, victim);
                        }
                        assert forall|k: Seq<char>| k != victim implies entry_for(self@, k)
                            == entry_for(before, k) by {
                            lemma_entry_for_remove_preserves(before, 0, k);
                        }
                        assert(entry_for(self@, key) is None);
                    }
                }
            }
        }
        let ghost mid = self@;
        let entry = CacheEntry { source: res.source, content: res.content, inserted_at: now };
        self.entries.push(entry);
        proof {
            assert(self@ =~= mid.push(entry));
            assert(entry_for(mid, key) is None);
            assert forall|k: Seq<char>| true implies entry_for(self@, k) == (if entry_for(mid, k)
                is Some {
                entry_for(mid, k)
            } else if entry.source@ == k {
                Some(entry)
            } else {
                None
            }) by {
                lemma_entry_for_push(mid, entry, k);
            }
            assert(distinct_sources(self@)) by {
                assert(forall|j: int| 0 <= j < mid.len() ==> #[trigger] self@[j] == mid[j]);
                assert(self@[mid.len() as int] == entry);
                lemma_entry_for_none_no_index(mid, key);
            }
            if entry_for(before, key) is None && before.len() >= old(self).max() as int {
                let ghost victim = before[0].source@;
                assert(victim != key && entry_for(before, victim) is Some && entry_for(
                    self@,
                    victim,
                ) is None && (forall|k: Seq<char>|
                    k != key && k != victim ==> entry_for(self@, k) == entry_for(before, k)));
            }
        }
    }
}

/// If position `i` holds the first entry whose source is `k`, the model
/// lookup returns exactly that entry.
proof fn lemma_entry_for_found(s: Seq<CacheEntry>, k: Seq<char>, i: int)
    requires
        0 <= i < s.len(),
        s[i].source@ == k,
        forall|j: int| 0 <= j < i ==> s[j].source@ != k,
    ensures
        entry_for(s, k) == Some(s[i]),
    decreases i,
{
    if i > 0 {
        assert(forall|j: int| 0 <= j < i - 1 ==> s.drop_first()[j] == s[j + 1]);
        lemma_entry_for_found(s.drop_first(), k, i - 1);
    }
}

/// If no entry's source is `k`, the model lookup is absent.
proof fn lemma_entry_for_absent(s: Seq<CacheEntry>, k: Seq<char>)
    requires
        forall|j: int| 0 <= j < s.len() ==> s[j].source@ != k,
    ensures
        entry_for(s, k) is None,
    decreases s.len(),
{
    if s.len() > 0 {
        assert(forall|j: int| 0 <= j < s.len() - 1 ==> s.drop_first()[j] == s[j + 1]);
        lemma_entry_for_absent(s.drop_first(), k);
    }
}

/// An absent lookup means no position holds `k`.
proof fn lemma_entry_for_none_no_index(s: Seq<CacheEntry>, k: Seq<char>)
    requires
        entry_for(s, k) is None,
    ensures
        forall|j: int| 0 <= j < s.len() ==> s[j].source@ != k,
    decreases s.len(),
{
    if s.len() > 0 {
        lemma_entry_for_none_no_index(s.drop_first(), k);
        assert(forall|j: int| 1 <= j < s.len() ==> s[j] == s.drop_first()[j - 1]);
    }
}

/// Removing an entry whose source is not `k` leaves the lookup of `k`
/// unchanged.
proof fn lemma_entry_for_remove_preserves(s: Seq<CacheEntry>, i: int, k: Seq<char>)
    requires
        0 <= i < s.len(),
        s[i].source@ != k,
    ensures
        entry_for(s.remove(i), k) == entry_for(s, k),
    decreases i,
{
    if i == 0 {
        assert(s.remove(0) =~= s.drop_first());
    } else {
        assert(s.remove(i)[0] == s[0]);
        if s[0].source@ == k {
            assert(s.remove(i).len() > 0);
        } else {
            assert(s.remove(i).drop_first() =~= s.drop_first().remove(i - 1));
            lemma_entry_for_remove_preserves(s.drop_first(), i - 1, k);
        }
    }
}

/// Appending an entry affects only the lookup of its own source, and only
/// when that source was absent.
proof fn lemma_entry_for_push(s: Seq<CacheEntry>, e: CacheEntry, k: Seq<char>)
    ensures
        entry_for(s.push(e), k) == (if entry_for(s, k) is Some {
            entry_for(s, k)
        } else if e.source@ == k {
            Some(e)
        } else {
            None
        }),
    decreases s.len(),
{
    if s.len() == 0 {
        assert(s.push(e)[0] == e);
        if e.source@ != k {
            assert(s.push(e).drop_first() =~= Seq::<CacheEntry>::empty());
        }
    } else {
        assert(s.push(e)[0] == s[0]);
        assert(s.push(e).drop_first() =~= s.drop_first().push(e));
        lemma_entry_for_push(s.drop_first(), e, k);
    }
}

/// Law: time to live.  Whatever entry the cache holds for a key, a lookup
/// strictly more than `ttl` seconds after its insertion is absent.
pub proof fn lemma_ttl_expiry(c: CrawlCache, k: Seq<char>, now: int)
    requires
        match entry_for(c@, k) {
            Some(e) => now > e.inserted_at + c.ttl(),
            None => true,
        },
    ensures
        c.lookup(k, now) is None,
{
}

/// Law: capacity.  A well-formed cache never holds more than `max` entries,
/// whatever sequence of operations produced it, since every operation
/// preserves well-formedness.
pub proof fn lemma_capacity_bound(c: CrawlCache)
    requires
        c.wf(),
    ensures
        c@.len() <= c.max() as int,
{
}

/// Law: degenerate cache.  With a zero time to live every entry is already
/// dead, and with a zero capacity a well-formed cache is empty: either way
/// every lookup, at every instant and for every key, is absent.
pub proof fn lemma_degenerate_always_misses(c: CrawlCache, k: Seq<char>, now: int)
    requires
        c.wf(),
        c.disabled(),
    ensures
        c.lookup(k, now) is None,
{
    if c.max() == 0 {
        assert(c@.len() == 0);
    }
}

/// Law: a stored result is served back unchanged.  From what `put`
/// guarantees — the entry for the key carries the stored content and its
/// insertion second — every lookup within the entry's lifetime returns
/// exactly that content.
pub proof fn lemma_fresh_hit(c: CrawlCache, k: Seq<char>, content: Seq<char>, t0: int, t1: int)
    requires
        match entry_for(c@, k) {
            Some(e) => e.content@ == content && e.inserted_at == t0,
            None => false,
        },
        t0 <= t1 < t0 + c.ttl(),
    ensures
        c.lookup(k, t1) == Some(content),
{
}

} // verus!
