//! The freshness cache.
//!
//! One slot per data key holds the most recently completed fetch
//! outcome (success or error) with its timestamp, and whether a fetch
//! for the key is currently in flight.  The cache decides staleness
//! and coalesces concurrent fetch attempts: `begin_fetch` grants the
//! right to fetch to exactly one caller until `complete` resolves the
//! slot.  The transitions here are sequential; a driver makes them
//! atomic by serializing access to the cache (a mutex around the map),
//! which yields the at-most-one-in-flight-fetch guarantee.

use crate::error::BotError;
use vstd::prelude::*;
use vstd::string::*;

verus! {

/// The state of one cached key: whether a fetch is in flight, the
/// most recently completed outcome (`None` before the first
/// completion), and when that outcome was written, in epoch seconds.
pub struct CacheSlot<V> {
    pub in_flight: bool,
    pub value: Option<Result<V, BotError>>,
    pub last_updated: i64,
}

/// The map an entry list denotes, later entries shadowing earlier
/// ones (well-formed caches have no duplicate keys to shadow).
pub open spec fn map_of<V>(s: Seq<(String, CacheSlot<V>)>) -> Map<Seq<char>, CacheSlot<V>>
    decreases s.len(),
{
    if s.len() == 0 {
        Map::empty()
    } else {
        map_of(s.drop_last()).insert(s.last().0@, s.last().1)
    }
}

pub open spec fn keys_unique<V>(s: Seq<(String, CacheSlot<V>)>) -> bool {
    forall|i: int, j: int|
        0 <= i < j < s.len() ==> (#[trigger] s[i]).0@ != (#[trigger] s[j]).0@
}

proof fn lemma_map_of_contains<V>(s: Seq<(String, CacheSlot<V>)>, k: Seq<char>)
    ensures
        map_of(s).contains_key(k) <==> exists|i: int| 0 <= i < s.len() && (#[trigger] s[i]).0@ == k,
    decreases s.len(),
{
    if s.len() > 0 {
        lemma_map_of_contains(s.drop_last(), k);
        if s.last().0@ == k {
            assert(s[s.len() - 1].0@ == k);
        } else if map_of(s).contains_key(k) {
            let i = choose|i: int| 0 <= i < s.drop_last().len() && (#[trigger] s.drop_last()[i]).0@ == k;
            assert(s[i].0@ == k);
        } else if exists|i: int| 0 <= i < s.len() && (#[trigger] s[i]).0@ == k {
            let i = choose|i: int| 0 <= i < s.len() && (#[trigger] s[i]).0@ == k;
            assert(i < s.len() - 1);
            assert(s.drop_last()[i].0@ == k);
        }
    }
}

proof fn lemma_map_of_sel<V>(s: Seq<(String, CacheSlot<V>)>, k: Seq<char>, i: int)
    requires
        keys_unique(s),
        0 <= i < s.len(),
        s[i].0@ == k,
    ensures
        map_of(s).contains_key(k),
        map_of(s)[k] == s[i].1,
    decreases s.len(),
{
    if i == s.len() - 1 {
    } else {
        assert(keys_unique(s.drop_last())) by {
            assert forall|a: int, b: int|
                0 <= a < b < s.drop_last().len() implies (#[trigger] s.drop_last()[a]).0@
                != (#[trigger] s.drop_last()[b]).0@ by {
                assert(s[a].0@ != s[b].0@);
            }
        }
        assert(s.drop_last()[i].0@ == k);
        lemma_map_of_sel(s.drop_last(), k, i);
        assert(s[i].0@ != s[s.len() - 1].0@);
    }
}

proof fn lemma_map_of_update<V>(s: Seq<(String, CacheSlot<V>)>, i: int, slot: CacheSlot<V>)
    requires
        keys_unique(s),
        0 <= i < s.len(),
    ensures
        map_of(s.update(i, (s[i].0, slot))) == map_of(s).insert(s[i].0@, slot),
    decreases s.len(),
{
    let t = s.update(i, (s[i].0, slot));
    if i == s.len() - 1 {
        assert(t.drop_last() =~= s.drop_last());
        assert(map_of(t) =~= map_of(s).insert(s[i].0@, slot));
    } else {
        assert(keys_unique(s.drop_last())) by {
            assert forall|a: int, b: int|
                0 <= a < b < s.drop_last().len() implies (#[trigger] s.drop_last()[a]).0@
                != (#[trigger] s.drop_last()[b]).0@ by {
                assert(s[a].0@ != s[b].0@);
            }
        }
        lemma_map_of_update(s.drop_last(), i, slot);
        assert(t.drop_last() =~= s.drop_last().update(i, (s[i].0, slot)));
        assert(t.last() == s.last());
        assert(s[i].0@ != s[s.len() - 1].0@);
        assert(map_of(t) =~= map_of(s).insert(s[i].0@, slot));
    }
}

/// Whether a key's cached data must be re-fetched at time `now`: no
/// slot exists, the slot has no completed value yet, the completed
/// value is an error (errors are always retried), or the value's age
/// has reached the key's target refresh interval.
pub open spec fn spec_needs_refresh<V>(
    m: Map<Seq<char>, CacheSlot<V>>,
    key: Seq<char>,
    now: int,
    interval: int,
) -> bool {
    ||| !m.contains_key(key)
    ||| m[key].value is None
    ||| m[key].value->0 is Err
    ||| now - m[key].last_updated >= interval
}

/// The slot after a granted `begin_fetch`: in flight, carrying
/// whatever completed value the key had before.
pub open spec fn spec_claimed<V>(m: Map<Seq<char>, CacheSlot<V>>, key: Seq<char>) -> CacheSlot<V> {
    if m.contains_key(key) {
        CacheSlot { in_flight: true, value: m[key].value, last_updated: m[key].last_updated }
    } else {
        CacheSlot { in_flight: true, value: None, last_updated: 0 }
    }
}

/// The `begin_fetch` transition: the resulting map, and whether the
/// caller won the right to fetch.
pub open spec fn spec_begin_fetch<V>(m: Map<Seq<char>, CacheSlot<V>>, key: Seq<char>) -> (
    Map<Seq<char>, CacheSlot<V>>,
    bool,
) {
    if m.contains_key(key) && m[key].in_flight {
        (m, false)
    } else {
        (m.insert(key, spec_claimed(m, key)), true)
    }
}

/// The `complete` transition: the slot is resolved with the outcome
/// and timestamp, in flight no more, whatever the outcome was.
pub open spec fn spec_complete<V>(
    m: Map<Seq<char>, CacheSlot<V>>,
    key: Seq<char>,
    outcome: Result<V, BotError>,
    now: i64,
) -> Map<Seq<char>, CacheSlot<V>> {
    m.insert(key, CacheSlot { in_flight: false, value: Some(outcome), last_updated: now })
}

/// Freshness law: immediately after a successful completion at time
/// `at`, the key needs no refresh for any interval the clock has not
/// yet consumed; once `now` reaches `at + interval`, it is stale
/// again.
pub proof fn lemma_fresh_after_complete<V>(
    m: Map<Seq<char>, CacheSlot<V>>,
    key: Seq<char>,
    v: V,
    at: i64,
    now: int,
    interval: int,
)
    ensures
        now - at < interval ==> !spec_needs_refresh(
            spec_complete(m, key, Ok(v), at),
            key,
            now,
            interval,
        ),
        now - at >= interval ==> spec_needs_refresh(
            spec_complete(m, key, Ok(v), at),
            key,
            now,
            interval,
        ),
{
}

/// Coalescing law: a claim is granted exactly when no fetch is in
/// flight for the key; after a granted claim, every further claim on
/// the key is denied, until a completion resolves the slot, after
/// which a claim is granted again.
pub proof fn lemma_claim_exclusive<V>(
    m: Map<Seq<char>, CacheSlot<V>>,
    key: Seq<char>,
    outcome: Result<V, BotError>,
    at: i64,
)
    ensures
        spec_begin_fetch(m, key).1 == !(m.contains_key(key) && m[key].in_flight),
        !spec_begin_fetch(spec_begin_fetch(m, key).0, key).1,
        spec_begin_fetch(spec_complete(spec_begin_fetch(m, key).0, key, outcome, at), key).1,
{
}

/// Resolution law: a completion, success or failure (a timeout
/// included), leaves the key resolved — no in-flight claim survives
/// it, and the slot holds the completed outcome.
pub proof fn lemma_complete_resolves<V>(
    m: Map<Seq<char>, CacheSlot<V>>,
    key: Seq<char>,
    outcome: Result<V, BotError>,
    at: i64,
)
    ensures
        spec_complete(m, key, outcome, at).contains_key(key),
        !spec_complete(m, key, outcome, at)[key].in_flight,
        spec_complete(m, key, outcome, at)[key].value == Some(outcome),
        spec_complete(m, key, outcome, at)[key].last_updated == at,
{
}

/// The per-key store of fetch outcomes, keyed by data key.
pub struct FreshnessCache<V> {
    entries: Vec<(String, CacheSlot<V>)>,
}

impl<V> View for FreshnessCache<V> {
    type V = Map<Seq<char>, CacheSlot<V>>;

    closed spec fn view(&self) -> Map<Seq<char>, CacheSlot<V>> {
        map_of(self.entries@)
    }
}

impl<V> FreshnessCache<V> {
    /// No duplicate keys in the slot list.
    pub closed spec fn wf(self) -> bool {
        keys_unique(self.entries@)
    }

    pub fn new() -> (c: FreshnessCache<V>)
        ensures
            c.wf(),
            c@ == Map::<Seq<char>, CacheSlot<V>>::empty(),
    {
        let c = FreshnessCache { entries: Vec::new() };
        proof {
            assert(c@ =~= Map::<Seq<char>, CacheSlot<V>>::empty());
        }
        c
    }

    /// The position of `key` in the slot list, if any.
    fn find(&self, key: &str) -> (r: Option<usize>)
        ensures
            r is Some ==> r->0 < self.entries@.len() && self.entries@[r->0 as int].0@ == key@,
            r is None ==> forall|i: int|
                0 <= i < self.entries@.len() ==> (#[trigger] self.entries@[i]).0@ != key@,
    {
        let n = self.entries.len();
        let mut i: usize = 0;
        while i < n
            invariant
                i <= n,
                n == self.entries@.len(),
                forall|j: int| 0 <= j < i ==> (#[trigger] self.entries@[j]).0@ != key@,
            decreases n - i,
        {
            if crate::text::str_eq(self.entries[i].0.as_str(), key) {
                return Some(i);
            }
            i = i + 1;
        }
        None
    }

    /// Whether `key` must be re-fetched at time `now`, against its
    /// target refresh interval.
    pub fn needs_refresh(&self, key: &str, now: i64, interval_secs: i64) -> (r: bool)
        requires
            self.wf(),
        ensures
            r == spec_needs_refresh(self@, key@, now as int, interval_secs as int),
    {
        match self.find(key) {
            Option::Some(i) => {
                proof {
                    lemma_map_of_sel(self.entries@, key@, i as int);
                }
                let slot = &self.entries[i].1;
                match &slot.value {
                    Option::None => true,
                    Option::Some(Result::Err(_)) => true,
                    Option::Some(Result::Ok(_)) => (now as i128) - (slot.last_updated as i128)
                        >= (interval_secs as i128),
                }
            },
            Option::None => {
                proof {
                    lemma_map_of_contains(self.entries@, key@);
                }
                true
            },
        }
    }

    /// Claim the right to fetch `key`: true to exactly one caller at a
    /// time.  The winner must later resolve the slot with
    /// [`FreshnessCache::complete`]; until then every further claim on
    /// the key is denied.
    pub fn begin_fetch(&mut self, key: &str) -> (r: bool)
        requires
            old(self).wf(),
        ensures
            final(self).wf(),
            r == spec_begin_fetch(old(self)@, key@).1,
            final(self)@ == spec_begin_fetch(old(self)@, key@).0,
    {
        match self.find(key) {
            Option::Some(i) => {
                proof {
                    lemma_map_of_sel(self.entries@, key@, i as int);
                }
                if self.entries[i].1.in_flight {
                    proof {
                        assert(self@ =~= spec_begin_fetch(old(self)@, key@).0);
                    }
                    false
                } else {
                    proof {
                        lemma_map_of_update(
                            self.entries@,
                            i as int,
                            CacheSlot {
                                in_flight: true,
                                value: self.entries@[i as int].1.value,
                                last_updated: self.entries@[i as int].1.last_updated,
                            },
                        );
                    }
                    self.entries[i].1.in_flight = true;
                    proof {
                        assert(self.entries@ =~= old(self).entries@.update(
                            i as int,
                            (old(self).entries@[i as int].0, self.entries@[i as int].1),
                        ));
                        assert(self@ =~= spec_begin_fetch(old(self)@, key@).0);
                    }
                    true
                }
            },
            Option::None => {
                proof {
                    lemma_map_of_contains(self.entries@, key@);
                }
                let slot = CacheSlot { in_flight: true, value: None, last_updated: 0 };
                self.entries.push((String::from_str(key), slot));
                proof {
                    assert(self.entries@.drop_last() =~= old(self).entries@);
                    assert(self@ =~= spec_begin_fetch(old(self)@, key@).0);
                }
                true
            },
        }
    }

    /// Resolve `key` with a completed outcome at time `now`,
    /// overwriting any in-flight claim, success or failure alike.
    pub fn complete(&mut self, key: &str, outcome: Result<V, BotError>, now: i64)
        requires
            old(self).wf(),
        ensures
            final(self).wf(),
            final(self)@ == spec_complete(old(self)@, key@, outcome, now),
    {
        let slot = CacheSlot { in_flight: false, value: Some(outcome), last_updated: now };
        match self.find(key) {
            Option::Some(i) => {
                proof {
                    lemma_map_of_update(self.entries@, i as int, slot);
                }
                self.entries[i].1 = slot;
                proof {
                    assert(self.entries@ =~= old(self).entries@.update(
                        i as int,
                        (old(self).entries@[i as int].0, self.entries@[i as int].1),
                    ));
                    assert(self@ =~= spec_complete(old(self)@, key@, outcome, now));
                }
            },
            Option::None => {
                proof {
                    lemma_map_of_contains(self.entries@, key@);
                }
                self.entries.push((String::from_str(key), slot));
                proof {
                    assert(self.entries@.drop_last() =~= old(self).entries@);
                    assert(self@ =~= spec_complete(old(self)@, key@, outcome, now));
                }
            },
        }
    }

    /// The current snapshot of `key`'s slot, without blocking: the
    /// most recently completed value, never a torn write.
    pub fn read(&self, key: &str) -> (r: Option<&CacheSlot<V>>)
        requires
            self.wf(),
        ensures
            r is Some <==> self@.contains_key(key@),
            r is Some ==> *r->0 == self@[key@],
    {
        match self.find(key) {
            Option::Some(i) => {
                proof {
                    lemma_map_of_sel(self.entries@, key@, i as int);
                }
                Some(&self.entries[i].1)
            },
            Option::None => {
                proof {
                    lemma_map_of_contains(self.entries@, key@);
                }
                None
            },
        }
    }
}

} // verus!
