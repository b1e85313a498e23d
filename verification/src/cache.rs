//! The TTL cache at the heart of the proxy.
//!
//! A [`TtlCache`] maps a query key (the upstream request URL) to at most one
//! [`CacheEntry`]. A read serves the stored value only while the entry is
//! fresh: an entry whose TTL has elapsed is left in place but never served,
//! and an entry stored without a TTL is never trusted — the first read after
//! it removes it unconditionally. A failed fetch never creates or modifies an
//! entry.

use vstd::prelude::*;

use crate::dtos::{AccountDto, AccountV, LeagueEntryDto, LeagueEntryV, MatchDto, MatchV};
use crate::error::RiotApiError;

verus! {

/// Payload stored in the cache: one variant per upstream response shape.
#[derive(Debug, PartialEq, Eq)]
pub enum CachedValue {
    Account(AccountDto),
    League(Vec<LeagueEntryDto>),
    Match(MatchDto),
}

/// Mathematical value of a [`CachedValue`].
pub enum CachedValueV {
    Account(AccountV),
    League(Seq<LeagueEntryV>),
    Match(MatchV),
}

impl DeepView for CachedValue {
    type V = CachedValueV;

    open spec fn deep_view(&self) -> CachedValueV {
        match self {
            CachedValue::Account(a) => CachedValueV::Account(a.deep_view()),
            CachedValue::League(es) => CachedValueV::League(es.deep_view()),
            CachedValue::Match(m) => CachedValueV::Match(m.deep_view()),
        }
    }
}

impl Clone for CachedValue {
    fn clone(&self) -> (r: Self)
        ensures
            r.deep_view() == self.deep_view(),
    {
        match self {
            CachedValue::Account(a) => CachedValue::Account(a.clone()),
            CachedValue::League(es) => {
                let copy = es.clone();
                proof {
                    assert(copy.deep_view() =~= es.deep_view());
                }
                CachedValue::League(copy)
            },
            CachedValue::Match(m) => CachedValue::Match(m.clone()),
        }
    }
}

/// One stored value together with its insertion time and its time to live.
///
/// `ttl: None` means the entry carries no expiry; such an entry is treated as
/// always stale and is removed on the first read that touches it.
#[derive(Debug)]
pub struct CacheEntry {
    pub value: CachedValue,
    pub inserted_at: u64,
    pub ttl: Option<u64>,
}

/// Mathematical value of a [`CacheEntry`].
pub struct EntryV {
    pub value: CachedValueV,
    pub inserted_at: u64,
    pub ttl: Option<u64>,
}

impl View for CacheEntry {
    type V = EntryV;

    open spec fn view(&self) -> EntryV {
        EntryV { value: self.value.deep_view(), inserted_at: self.inserted_at, ttl: self.ttl }
    }
}

/// An entry is fresh at `now` when it has a TTL that has not yet elapsed.
/// The comparison is over mathematical integers, so a reading taken before
/// the insertion time (impossible with a monotonic clock) also counts as
/// fresh.
pub open spec fn spec_fresh(e: EntryV, now: u64) -> bool {
    match e.ttl {
        Some(t) => now - e.inserted_at < t,
        None => false,
    }
}

/// What a single read leaves of an entry: an entry without a TTL is removed,
/// any other entry stays as it was.
pub open spec fn spec_after_probe(o: Option<EntryV>) -> Option<EntryV> {
    match o {
        Some(e) => if e.ttl is None {
            None
        } else {
            Some(e)
        },
        None => None,
    }
}

/// The value of an optional cached payload.
pub open spec fn opt_value_view(r: Option<CachedValue>) -> Option<CachedValueV> {
    match r {
        Some(v) => Some(v.deep_view()),
        None => None,
    }
}

struct Slot {
    key: String,
    entry: CacheEntry,
}

spec fn slot_keys_distinct(s: Seq<Slot>) -> bool {
    forall|i: int, j: int| 0 <= i < j < s.len() ==> s[i].key@ != s[j].key@
}

spec fn find_entry(s: Seq<Slot>, k: Seq<char>) -> Option<EntryV>
    decreases s.len(),
{
    if s.len() == 0 {
        None
    } else if s[0].key@ == k {
        Some(s[0].entry@)
    } else {
        find_entry(s.drop_first(), k)
    }
}

proof fn lemma_find_entry_none(s: Seq<Slot>, k: Seq<char>)
    requires
        forall|j: int| 0 <= j < s.len() ==> s[j].key@ != k,
    ensures
        find_entry(s, k) is None,
    decreases s.len(),
{
    if s.len() > 0 {
        lemma_find_entry_none(s.drop_first(), k);
    }
}

proof fn lemma_find_entry_at_index(s: Seq<Slot>, k: Seq<char>, i: int)
    requires
        0 <= i < s.len(),
        s[i].key@ == k,
        forall|j: int| 0 <= j < i ==> s[j].key@ != k,
    ensures
        find_entry(s, k) == Some(s[i].entry@),
    decreases i,
{
    if i > 0 {
        lemma_find_entry_at_index(s.drop_first(), k, i - 1);
    }
}

proof fn lemma_find_entry_remove(s: Seq<Slot>, i: int, k2: Seq<char>)
    requires
        0 <= i < s.len(),
        slot_keys_distinct(s),
    ensures
        find_entry(s.remove(i), k2) == if s[i].key@ == k2 {
            None::<EntryV>
        } else {
            find_entry(s, k2)
        },
    decreases s.len(),
{
    if i == 0 {
        assert(s.remove(0) =~= s.drop_first());
        if s[0].key@ == k2 {
            assert(forall|j: int|
                0 <= j < s.drop_first().len() ==> s.drop_first()[j].key@ != k2);
            lemma_find_entry_none(s.drop_first(), k2);
        }
    } else {
        assert(s.remove(i).drop_first() =~= s.drop_first().remove(i - 1));
        assert(slot_keys_distinct(s.drop_first()));
        lemma_find_entry_remove(s.drop_first(), i - 1, k2);
    }
}

proof fn lemma_find_entry_push(s: Seq<Slot>, slot: Slot, k2: Seq<char>)
    ensures
        find_entry(s.push(slot), k2) == if find_entry(s, k2) is Some {
            find_entry(s, k2)
        } else if slot.key@ == k2 {
            Some(slot.entry@)
        } else {
            None::<EntryV>
        },
    decreases s.len(),
{
    if s.len() == 0 {
        reveal_with_fuel(find_entry, 3);
        assert(s.push(slot)[0] == slot);
        assert(s.push(slot).drop_first() =~= Seq::<Slot>::empty());
    } else {
        assert(s.push(slot)[0] == s[0]);
        assert(s.push(slot).drop_first() =~= s.drop_first().push(slot));
        lemma_find_entry_push(s.drop_first(), slot, k2);
    }
}

/// The cache: a keyed store of [`CacheEntry`] values with unique keys.
pub struct TtlCache {
    slots: Vec<Slot>,
}

impl TtlCache {
    /// Keys are pairwise distinct, so each key names at most one entry.
    pub closed spec fn wf(self) -> bool {
        slot_keys_distinct(self.slots@)
    }

    /// The entry stored under key `k`, if any.
    pub closed spec fn entry_at(self, k: Seq<char>) -> Option<EntryV> {
        find_entry(self.slots@, k)
    }

    /// The value a read of key `k` at time `now` is allowed to return: the
    /// stored value when the entry is fresh, nothing otherwise.
    pub open spec fn serves(self, k: Seq<char>, now: u64) -> Option<CachedValueV> {
        match self.entry_at(k) {
            Some(e) => if spec_fresh(e, now) {
                Some(e.value)
            } else {
                None
            },
            None => None,
        }
    }

    /// An empty cache.
    pub fn new() -> (c: TtlCache)
        ensures
            c.wf(),
            forall|k: Seq<char>| c.entry_at(k) is None,
    {
        let c = TtlCache { slots: Vec::new() };
        proof {
            assert forall|k: Seq<char>| c.entry_at(k) is None by {
                lemma_find_entry_none(c.slots@, k);
            }
        }
        c
    }

    fn find_index(&self, key: &String) -> (r: Option<usize>)
        ensures
            match r {
                Some(i) => i < self.slots@.len() && self.slots@[i as int].key@ == key@
                    && forall|j: int| 0 <= j < i ==> self.slots@[j].key@ != key@,
                None => forall|j: int| 0 <= j < self.slots@.len() ==> self.slots@[j].key@ != key@,
            },
    {
        let n = self.slots.len();
        let mut i: usize = 0;
        while i < n
            invariant
                i <= n,
                n == self.slots@.len(),
                forall|j: int| 0 <= j < i ==> self.slots@[j].key@ != key@,
            decreases n - i,
        {
            if self.slots[i].key == *key {
                return Some(i);
            }
            i += 1;
        }
        None
    }

    /// One locked read of the cache. Returns a copy of the stored value when
    /// the entry under `key` is fresh at `now`; otherwise returns nothing,
    /// removing the entry if it has no TTL and leaving it in place if it has
    /// merely expired.
    pub fn probe(&mut self, key: &String, now: u64) -> (r: Option<CachedValue>)
        requires
            old(self).wf(),
        ensures
            final(self).wf(),
            opt_value_view(r) == old(self).serves(key@, now),
            final(self).entry_at(key@) == spec_after_probe(old(self).entry_at(key@)),
            forall|k2: Seq<char>| k2 != key@ ==> final(self).entry_at(k2) == old(self).entry_at(
                k2,
            ),
    {
        let ghost pre = self.slots@;
        match self.find_index(key) {
            None => {
                proof {
                    lemma_find_entry_none(pre, key@);
                }
                None
            },
            Some(i) => {
                proof {
                    lemma_find_entry_at_index(pre, key@, i as int);
                }
                let inserted_at = self.slots[i].entry.inserted_at;
                match self.slots[i].entry.ttl {
                    Some(t) => {
                        let fresh = if now >= inserted_at {
                            now - inserted_at < t
                        } else {
                            true
                        };
                        if fresh {
                            Some(self.slots[i].entry.value.clone())
                        } else {
                            None
                        }
                    },
                    None => {
                        self.slots.remove(i);
                        proof {
                            assert forall|k2: Seq<char>| #[trigger] find_entry(self.slots@, k2)
                                == (if pre[i as int].key@ == k2 {
                                None::<EntryV>
                            } else {
                                find_entry(pre, k2)
                            }) by {
                                lemma_find_entry_remove(pre, i as int, k2);
                            }
                            assert(slot_keys_distinct(self.slots@));
                        }
                        None
                    },
                }
            },
        }
    }

    /// One locked write of the cache: insert or overwrite the entry under
    /// `key` with `value`, stamped `inserted_at: now` and carrying `ttl`.
    pub fn store(&mut self, key: &String, value: CachedValue, now: u64, ttl: Option<u64>)
        requires
            old(self).wf(),
        ensures
            final(self).wf(),
            final(self).entry_at(key@) == Some(
                EntryV { value: value.deep_view(), inserted_at: now, ttl },
            ),
            forall|k2: Seq<char>| k2 != key@ ==> final(self).entry_at(k2) == old(self).entry_at(
                k2,
            ),
    {
        let ghost pre = self.slots@;
        match self.find_index(key) {
            Some(i) => {
                self.slots.remove(i);
                proof {
                    assert forall|k2: Seq<char>|
                        #[trigger] find_entry(self.slots@, k2) == (if pre[i as int].key@ == k2 {
                        None::<EntryV>
                    } else {
                        find_entry(pre, k2)
                    }) by {
                        lemma_find_entry_remove(pre, i as int, k2);
                    }
                    assert(slot_keys_distinct(self.slots@));
                    assert forall|j: int| 0 <= j < self.slots@.len() implies #[trigger] self.slots@[j].key@
                        != key@ by {
                        if j < i {
                            assert(self.slots@[j] == pre[j]);
                        } else {
                            assert(self.slots@[j] == pre[j + 1]);
                        }
                    }
                }
            },
            None => {},
        }
        let ghost mid = self.slots@;
        let slot = Slot { key: key.clone(), entry: CacheEntry { value, inserted_at: now, ttl } };
        proof {
            lemma_find_entry_none(mid, key@);
        }
        self.slots.push(slot);
        proof {
            let pushed = self.slots@.last();
            assert(pushed.key@ == key@);
            assert forall|k2: Seq<char>| #[trigger] find_entry(self.slots@, k2) == (if k2 == key@ {
                Some(EntryV { value: value.deep_view(), inserted_at: now, ttl })
            } else {
                find_entry(mid, k2)
            }) by {
                lemma_find_entry_push(mid, pushed, k2);
                if k2 != key@ && find_entry(mid, k2) is None {
                }
            }
            assert(slot_keys_distinct(self.slots@));
        }
    }

    /// The central algorithm of the proxy: return the cached value for `key`
    /// if it is fresh at `now`; otherwise invoke `fetch`, store a successful
    /// result under `key` with time-to-live `ttl`, and hand the result
    /// through. A failed fetch is propagated unchanged and writes nothing.
    pub fn get_or_fetch<F: FnOnce() -> Result<CachedValue, RiotApiError>>(
        &mut self,
        key: &String,
        ttl: u64,
        now: u64,
        fetch: F,
    ) -> (r: Result<CachedValue, RiotApiError>)
        requires
            old(self).wf(),
            call_requires(fetch, ()),
        ensures
            final(self).wf(),
            old(self).serves(key@, now) matches Some(v) ==> ({
                &&& r matches Ok(rv) && rv.deep_view() == v
                &&& forall|k2: Seq<char>| final(self).entry_at(k2) == old(self).entry_at(k2)
            }),
            old(self).serves(key@, now) is None ==> exists|fr: Result<CachedValue, RiotApiError>|
                #[trigger] call_ensures(fetch, (), fr) && miss_step(
                    *old(self),
                    *final(self),
                    key@,
                    ttl,
                    now,
                    fr,
                    r,
                ),
    {
        let ghost pre = *self;
        match self.probe(key, now) {
            Some(v) => {
                proof {
                    assert forall|k2: Seq<char>| self.entry_at(k2) == pre.entry_at(k2) by {
                        if k2 == key@ {
                            assert(pre.entry_at(key@) matches Some(e) && e.ttl is Some);
                        }
                    }
                }
                Ok(v)
            },
            None => {
                match fetch() {
                    Ok(v) => {
                        let rv = v.clone();
                        self.store(key, v, now, Some(ttl));
                        proof {
                            let fr = Ok::<CachedValue, RiotApiError>(v);
                            assert(call_ensures(fetch, (), fr) && miss_step(
                                pre,
                                *self,
                                key@,
                                ttl,
                                now,
                                fr,
                                Ok(rv),
                            ));
                        }
                        Ok(rv)
                    },
                    Err(e) => {
                        proof {
                            let fr = Err::<CachedValue, RiotApiError>(e);
                            assert(call_ensures(fetch, (), fr) && miss_step(
                                pre,
                                *self,
                                key@,
                                ttl,
                                now,
                                fr,
                                Err(e),
                            ));
                        }
                        Err(e)
                    },
                }
            },
        }
    }
}

/// How one miss of [`TtlCache::get_or_fetch`] relates the cache before
/// (`pre`) and after (`post`) the call, the fetch outcome `fr`, and the
/// returned result `r`.
pub open spec fn miss_step(
    pre: TtlCache,
    post: TtlCache,
    k: Seq<char>,
    ttl: u64,
    now: u64,
    fr: Result<CachedValue, RiotApiError>,
    r: Result<CachedValue, RiotApiError>,
) -> bool {
    &&& match fr {
        Ok(v) => {
            &&& r matches Ok(rv) && rv.deep_view() == v.deep_view()
            &&& post.entry_at(k) == Some(
                EntryV { value: v.deep_view(), inserted_at: now, ttl: Some(ttl) },
            )
        },
        Err(e) => {
            &&& r == Err::<CachedValue, RiotApiError>(e)
            &&& post.entry_at(k) == spec_after_probe(pre.entry_at(k))
        },
    }
    &&& forall|k2: Seq<char>| k2 != k ==> post.entry_at(k2) == pre.entry_at(k2)
}

/// Freshness: once a successful fetch has stored value `v` for key `k` at
/// `t_insert` with time-to-live `ttl`, any read of `k` within that TTL is
/// served exactly `v` from the cache — by the hit clause of `get_or_fetch`,
/// such a read returns `v` without touching the fetch function or the cache.
pub proof fn lemma_freshness(
    c: TtlCache,
    k: Seq<char>,
    v: CachedValueV,
    t_insert: u64,
    ttl: u64,
    t_read: u64,
)
    requires
        c.entry_at(k) == Some(EntryV { value: v, inserted_at: t_insert, ttl: Some(ttl) }),
        t_read - t_insert < ttl,
    ensures
        c.serves(k, t_read) == Some(v),
{
}

/// Expiry: once the TTL of the entry under `k` has elapsed, the cache serves
/// nothing for `k` — so `get_or_fetch` falls into its miss clause, invokes the
/// fetch function again, and a successful refetch overwrites the entry with a
/// new insertion time (`miss_step`).
pub proof fn lemma_expiry(
    c: TtlCache,
    k: Seq<char>,
    v: CachedValueV,
    t_insert: u64,
    ttl: u64,
    t_read: u64,
)
    requires
        c.entry_at(k) == Some(EntryV { value: v, inserted_at: t_insert, ttl: Some(ttl) }),
        t_read - t_insert >= ttl,
    ensures
        c.serves(k, t_read) is None,
{
}

/// An entry stored without a TTL is never served, whatever the reading time,
/// and the first read that touches it removes it (`spec_after_probe`), so the
/// next lookup must fetch again.
pub proof fn lemma_no_ttl_never_served(c: TtlCache, k: Seq<char>, now: u64)
    requires
        c.entry_at(k) matches Some(e) && e.ttl is None,
    ensures
        c.serves(k, now) is None,
        spec_after_probe(c.entry_at(k)) is None,
{
}

/// Error non-caching: when the fetch fails on a miss, the error is returned
/// unchanged and the cache still serves nothing for `k` at any later time, so
/// a subsequent call must invoke the fetch function again.
pub proof fn lemma_error_not_cached(
    pre: TtlCache,
    post: TtlCache,
    k: Seq<char>,
    ttl: u64,
    now: u64,
    e: RiotApiError,
    r: Result<CachedValue, RiotApiError>,
    later: u64,
)
    requires
        pre.serves(k, now) is None,
        miss_step(pre, post, k, ttl, now, Err(e), r),
        later >= now,
    ensures
        r == Err::<CachedValue, RiotApiError>(e),
        post.serves(k, later) is None,
{
}

/// After a successful fetch has been stored for `k` (one completed miss of
/// `get_or_fetch`), any read of `k` within the TTL serves exactly the fetched
/// value, so a second `get_or_fetch` inside that window returns it by its hit
/// clause, without invoking its fetch function.
pub proof fn lemma_fetch_then_fresh(
    pre: TtlCache,
    post: TtlCache,
    k: Seq<char>,
    ttl: u64,
    now: u64,
    v: CachedValue,
    r: Result<CachedValue, RiotApiError>,
    t_read: u64,
)
    requires
        miss_step(pre, post, k, ttl, now, Ok(v), r),
        t_read - now < ttl,
    ensures
        post.serves(k, t_read) == Some(v.deep_view()),
{
}

/// Once the TTL of a stored fetch result has elapsed, the cache serves
/// nothing for `k`, so the next `get_or_fetch` takes its miss clause: it
/// invokes its fetch function again and a success overwrites the entry with
/// the new insertion time.
pub proof fn lemma_fetch_then_expired(
    pre: TtlCache,
    post: TtlCache,
    k: Seq<char>,
    ttl: u64,
    now: u64,
    v: CachedValue,
    r: Result<CachedValue, RiotApiError>,
    t_read: u64,
)
    requires
        miss_step(pre, post, k, ttl, now, Ok(v), r),
        t_read - now >= ttl,
    ensures
        post.serves(k, t_read) is None,
{
}

/// Isolation: a miss transition for key `k1` leaves the entry under every
/// other key untouched, so what the cache serves for `k2` at any time is
/// unchanged.
pub proof fn lemma_isolation(
    pre: TtlCache,
    post: TtlCache,
    k1: Seq<char>,
    ttl: u64,
    now: u64,
    fr: Result<CachedValue, RiotApiError>,
    r: Result<CachedValue, RiotApiError>,
    k2: Seq<char>,
    t_read: u64,
)
    requires
        miss_step(pre, post, k1, ttl, now, fr, r),
        k2 != k1,
    ensures
        post.entry_at(k2) == pre.entry_at(k2),
        post.serves(k2, t_read) == pre.serves(k2, t_read),
{
}

} // verus!
