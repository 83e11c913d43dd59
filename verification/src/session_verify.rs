//! A cache of session validations, each with its own time to live.

use vstd::prelude::*;
use crate::clock;
use crate::str_map::{lemma_position_of, position_of, StrMap};

verus! {

/// A cached validation result.
#[derive(Debug, Clone)]
pub struct CachedSession {
    pub session_id: String,
    pub astation_id: String,
    pub valid: bool,
    /// Seconds since the epoch.
    pub cached_at: u64,
    pub ttl_seconds: u64,
}

/// How an entry counts in the statistics.
#[derive(Debug, Clone, Copy, PartialEq, Eq, Structural)]
pub enum EntryKind {
    Valid,
    Invalid,
    Expired,
}

impl CachedSession {
    /// The age of the entry at `now`, in seconds; an entry from the future
    /// has age zero.
    pub open spec fn age(&self, now: u64) -> int {
        if now >= self.cached_at {
            now - self.cached_at
        } else {
            0
        }
    }

    /// Whether the entry is still within its time to live at `now`.
    pub open spec fn is_live(&self, now: u64) -> bool {
        self.age(now) < self.ttl_seconds
    }

    /// How the entry counts at `now`.
    pub open spec fn kind(&self, now: u64) -> EntryKind {
        if !self.is_live(now) {
            EntryKind::Expired
        } else if self.valid {
            EntryKind::Valid
        } else {
            EntryKind::Invalid
        }
    }

    /// Whether the entry is still within its time to live at `now`.
    pub fn live_at(&self, now: u64) -> (live: bool)
        ensures
            live == self.is_live(now),
    {
        let age = if now >= self.cached_at {
            now - self.cached_at
        } else {
            0
        };
        age < self.ttl_seconds
    }
}

/// How many of `entries` count as `kind` at `now`.
pub open spec fn count_kind(entries: Seq<CachedSession>, now: u64, kind: EntryKind) -> nat
    decreases entries.len(),
{
    if entries.len() == 0 {
        0
    } else {
        count_kind(entries.drop_last(), now, kind) + (if entries.last().kind(now) == kind {
            1nat
        } else {
            0nat
        })
    }
}

/// Every entry counts as exactly one kind.
pub proof fn lemma_counts_add_up(entries: Seq<CachedSession>, now: u64)
    ensures
        count_kind(entries, now, EntryKind::Valid) + count_kind(entries, now, EntryKind::Invalid)
            + count_kind(entries, now, EntryKind::Expired) == entries.len(),
    decreases entries.len(),
{
    if entries.len() > 0 {
        lemma_counts_add_up(entries.drop_last(), now);
    }
}

/// The numbers of entries of each kind.
#[derive(Debug)]
pub struct CacheStats {
    pub total: usize,
    pub valid: usize,
    pub invalid: usize,
    pub expired: usize,
}

/// Asks a station whether a session is valid.
#[derive(Debug)]
pub struct SessionVerifyRequest {
    pub session_id: String,
    pub request_id: String,
}

/// A station's answer on a session.
#[derive(Debug)]
pub struct SessionVerifyResponse {
    pub session_id: String,
    pub request_id: String,
    pub valid: bool,
    pub astation_id: Option<String>,
}

/// The entries that a sweep at `now` leaves: those still within their time
/// to live.
pub open spec fn live_entries(entries: Map<Seq<char>, CachedSession>, now: u64) -> Map<
    Seq<char>,
    CachedSession,
> {
    entries.restrict(
        Set::new(|id: Seq<char>| entries.dom().contains(id) && entries[id].is_live(now)),
    )
}

/// The verdict that the cache gives on `id` at `now`: that of a live entry,
/// or none.
pub open spec fn cached_verdict(
    entries: Map<Seq<char>, CachedSession>,
    id: Seq<char>,
    now: u64,
) -> Option<
    bool,
> {
    if entries.dom().contains(id) && entries[id].is_live(now) {
        Some(entries[id].valid)
    } else {
        None
    }
}

/// The cache of validation results, keyed by session identifier.
pub struct SessionVerifyCache {
    cache: StrMap<CachedSession>,
}

impl SessionVerifyCache {
    /// The cached entries, by session identifier.
    pub closed spec fn view(&self) -> Map<Seq<char>, CachedSession> {
        self.cache@
    }

    /// The session identifiers in the order in which they were first cached.
    pub closed spec fn ids(&self) -> Seq<Seq<char>> {
        self.cache.keys()
    }

    /// The cached entries, each at the position of its identifier.
    pub closed spec fn entries(&self) -> Seq<CachedSession> {
        self.cache.values()
    }

    /// An empty cache.
    pub fn new() -> (cache: Self)
        ensures
            cache@ == Map::<Seq<char>, CachedSession>::empty(),
            cache.ids() == Seq::<Seq<char>>::empty(),
            cache.entries() == Seq::<CachedSession>::empty(),
    {
        SessionVerifyCache { cache: StrMap::new() }
    }

    /// The cached verdict on `session_id` at `now`: present only where an
    /// entry exists and is still within its time to live. An entry that has
    /// run out stays in the cache.
    pub fn get_at(&self, session_id: &str, now: u64) -> (verdict: Option<bool>)
        ensures
            verdict == cached_verdict(self@, session_id@, now),
    {
        match self.cache.get(session_id) {
            Some(cached) => {
                if cached.live_at(now) {
                    Some(cached.valid)
                } else {
                    None
                }
            },
            None => None,
        }
    }

    /// The cached verdict on `session_id`, now. A verdict is reported only
    /// for an entry that exists, and it is that entry's.
    pub fn get(&self, session_id: &str) -> (verdict: Option<bool>)
        ensures
            exists|now: u64| verdict == #[trigger] cached_verdict(self@, session_id@, now),
            verdict matches Some(valid) ==> self@.dom().contains(session_id@)
                && self@[session_id@].valid == valid,
    {
        self.get_at(session_id, clock::now_timestamp())
    }

    /// Caches a verdict on `session_id` at `now`, in place of an earlier one.
    /// A new identifier goes to the end of the order; a known one keeps its
    /// place.
    pub fn set_at(
        &mut self,
        session_id: String,
        astation_id: String,
        valid: bool,
        ttl_seconds: u64,
        now: u64,
    )
        ensures
            final(self)@ == old(self)@.insert(
                session_id@,
                CachedSession { session_id, astation_id, valid, cached_at: now, ttl_seconds },
            ),
            final(self).ids().len() == final(self).entries().len(),
            if old(self)@.dom().contains(session_id@) {
                final(self).ids() == old(self).ids()
                    && final(self).entries() == old(self).entries().update(
                    position_of(old(self).ids(), session_id@),
                    CachedSession { session_id, astation_id, valid, cached_at: now, ttl_seconds },
                )
            } else {
                final(self).ids() == old(self).ids().push(session_id@) && final(self).entries()
                    == old(self).entries().push(
                    CachedSession { session_id, astation_id, valid, cached_at: now, ttl_seconds },
                )
            },
    {
        let key = session_id.clone();
        let entry = CachedSession { session_id, astation_id, valid, cached_at: now, ttl_seconds };
        let _ = self.cache.insert(key, entry);
        proof {
            self.cache.lemma_parallel();
        }
    }

    /// Caches a verdict on `session_id`, now.
    pub fn set(&mut self, session_id: String, astation_id: String, valid: bool, ttl_seconds: u64)
        ensures
            final(self)@.dom() == old(self)@.dom().insert(session_id@),
            final(self)@[session_id@] == (CachedSession {
                session_id,
                astation_id,
                valid,
                cached_at: final(self)@[session_id@].cached_at,
                ttl_seconds,
            }),
            forall|id: Seq<char>|
                id != session_id@ && old(self)@.dom().contains(id) ==> #[trigger] final(self)@[id]
                    == old(self)@[id],
    {
        self.set_at(session_id, astation_id, valid, ttl_seconds, clock::now_timestamp());
    }

    /// Removes the entry for `session_id`, if there is one.
    pub fn remove(&mut self, session_id: &str)
        ensures
            final(self)@ == old(self)@.remove(session_id@),
    {
        self.cache.remove(session_id);
    }

    /// Removes the entries that have run out at `now`.
    pub fn cleanup_expired_at(&mut self, now: u64)
        ensures
            final(self)@ == live_entries(old(self)@, now),
            final(self).entries().len() <= old(self).entries().len(),
    {
        let n = self.cache.len();
        let mut keep: Vec<bool> = Vec::new();
        let mut i: usize = 0;
        while i < n
            invariant
                n == self.cache.keys().len(),
                n == self.cache.values().len(),
                i <= n,
                keep@.len() == i,
                forall|j: int| 0 <= j < i ==> keep@[j] == self.cache.values()[j].is_live(now),
            decreases n - i,
        {
            keep.push(self.cache.value_at(i).live_at(now));
            i += 1;
        }
        let ghost keys0 = self.cache.keys();
        let ghost before = self.cache@;
        self.cache.retain_flags(&keep);
        proof {
            self.cache.lemma_parallel();
            old(self).cache.lemma_parallel();
            assert forall|id: Seq<char>| #[trigger]
                self.cache@.dom().contains(id) == live_entries(before, now).dom().contains(id) by {
                lemma_position_of(keys0, id);
            }
            assert(self.cache@ =~= live_entries(before, now));
        }
    }

    /// Removes the entries that have run out by now. No entry is added or
    /// changed.
    pub fn cleanup_expired(&mut self)
        ensures
            exists|now: u64| final(self)@ == #[trigger] live_entries(old(self)@, now),
            forall|id: Seq<char>| #[trigger]
                final(self)@.dom().contains(id)
                    ==> old(self)@.dom().contains(id) && final(self)@[id]
                    == old(self)@[id],
    {
        self.cleanup_expired_at(clock::now_timestamp());
    }

    /// How many entries there are at `now`, and how many of them are live and
    /// valid, live and invalid, and run out.
    pub fn stats_at(&self, now: u64) -> (stats: CacheStats)
        ensures
            stats.total == self.entries().len(),
            stats.valid == count_kind(self.entries(), now, EntryKind::Valid),
            stats.invalid == count_kind(self.entries(), now, EntryKind::Invalid),
            stats.expired == count_kind(self.entries(), now, EntryKind::Expired),
            stats.valid + stats.invalid + stats.expired == stats.total,
    {
        let n = self.cache.len();
        let mut valid_count: usize = 0;
        let mut invalid_count: usize = 0;
        let mut expired_count: usize = 0;
        let mut i: usize = 0;
        while i < n
            invariant
                n == self.cache.values().len(),
                i <= n,
                valid_count == count_kind(self.entries().take(i as int), now, EntryKind::Valid),
                invalid_count == count_kind(
                    self.entries().take(i as int),
                    now,
                    EntryKind::Invalid,
                ),
                expired_count == count_kind(
                    self.entries().take(i as int),
                    now,
                    EntryKind::Expired,
                ),
                valid_count + invalid_count + expired_count == i,
            decreases n - i,
        {
            let cached = self.cache.value_at(i);
            assert(self.entries().take(i + 1).drop_last() =~= self.entries().take(i as int));
            assert(self.entries().take(i + 1).last() == *cached);
            if !cached.live_at(now) {
                expired_count += 1;
            } else if cached.valid {
                valid_count += 1;
            } else {
                invalid_count += 1;
            }
            i += 1;
        }
        assert(self.entries().take(n as int) =~= self.entries());
        CacheStats { total: n, valid: valid_count, invalid: invalid_count, expired: expired_count }
    }

    /// The statistics of the cache, now. The total is the number of entries,
    /// and every entry counts as exactly one kind.
    pub fn stats(&self) -> (stats: CacheStats)
        ensures
            stats.total == self.entries().len(),
            stats.valid + stats.invalid + stats.expired == stats.total,
            exists|now: u64|
                {
                    &&& stats.valid == #[trigger] count_kind(self.entries(), now, EntryKind::Valid)
                    &&& stats.invalid == count_kind(self.entries(), now, EntryKind::Invalid)
                    &&& stats.expired == count_kind(self.entries(), now, EntryKind::Expired)
                },
    {
        self.stats_at(clock::now_timestamp())
    }
}

impl Default for SessionVerifyCache {
    fn default() -> (cache: Self)
        ensures
            cache@ == Map::<Seq<char>, CachedSession>::empty(),
    {
        SessionVerifyCache::new()
    }
}

} // verus!
