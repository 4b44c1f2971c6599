//! The cache snapshot: a keyed set of fetched records, a set of
//! confirmed-missing ids, and the time the snapshot was taken. A snapshot
//! is valid as a whole or stale as a whole; staleness and every load
//! failure degrade to "empty", never to an error.

use std::collections::HashMap;
use std::collections::HashSet;
use vstd::prelude::*;

use crate::record::ItemRecord;
use crate::record::ItemRecordModel;

verus! {

broadcast use vstd::std_specs::hash::group_hash_axioms;

/// Time-to-live of the item-metadata cache: 24 hours, in seconds.
pub const ITEM_CACHE_TTL_SECS: u64 = 24 * 60 * 60;

/// Time-to-live of the installation-path, library-path and workshop-path
/// caches: 1 hour, in seconds.
pub const PATH_CACHE_TTL_SECS: u64 = 60 * 60;

/// Whether a snapshot taken at `timestamp` is still valid at `now` under
/// `ttl`. The elapsed time saturates at zero when the clock has gone
/// backwards, so a snapshot from the future counts as fresh.
pub open spec fn spec_snapshot_valid(timestamp: u64, ttl: u64, now: u64) -> bool {
    (if now >= timestamp {
        now - timestamp
    } else {
        0
    }) < ttl
}

/// The in-memory materialization of the on-disk cache: positive records
/// keyed by id, confirmed-missing ids, and the UNIX second the snapshot
/// was taken.
#[derive(Debug)]
pub struct CacheSnapshot {
    /// Successfully fetched records, keyed by their published id.
    pub records: HashMap<u64, ItemRecord>,
    /// Ids confirmed absent from the platform as of `timestamp`.
    pub negative: HashSet<u64>,
    /// UNIX seconds at which the snapshot was taken; `0` for the empty
    /// snapshot, which is stale under every positive TTL.
    pub timestamp: u64,
}

/// Why a snapshot could not be produced from the cache file. Both kinds
/// degrade to the empty snapshot and are never surfaced to the caller.
#[derive(Clone, Copy, PartialEq, Eq, Structural, Debug)]
pub enum CacheLoadError {
    /// The cache file could not be read.
    Io,
    /// The cache file's content did not decode as a snapshot.
    Decode,
}

/// The outcome of a cache lookup: a positive record, a confirmed-missing
/// marker, or nothing. Anything in a stale snapshot reports as `Miss`.
#[derive(Debug)]
pub enum CacheLookup {
    /// A positive record was cached and the snapshot is valid.
    Hit(ItemRecord),
    /// The id is confirmed missing and the snapshot is valid.
    NegativeHit,
    /// The snapshot is stale, or holds nothing for the id.
    Miss,
}

impl CacheSnapshot {
    /// The records as a mathematical map from id to record image.
    pub open spec fn records_model(&self) -> Map<u64, ItemRecordModel> {
        self.records@.map_values(crate::record::record_view_fn())
    }

    /// The ids the snapshot covers: positively cached or confirmed missing.
    pub open spec fn covered_ids(&self) -> Set<u64> {
        self.records@.dom() + self.negative@
    }

    /// A snapshot with no records, no negative markers, and timestamp `0`.
    pub open spec fn is_empty_snapshot(&self) -> bool {
        &&& self.records@ == Map::<u64, ItemRecord>::empty()
        &&& self.negative@ == Set::<u64>::empty()
        &&& self.timestamp == 0
    }

    /// Builds the empty snapshot.
    pub fn empty() -> (r: CacheSnapshot)
        ensures
            r.is_empty_snapshot(),
    {
        CacheSnapshot { records: HashMap::new(), negative: HashSet::new(), timestamp: 0 }
    }

    /// Whether the whole snapshot is still valid at `now` under `ttl`.
    pub fn is_valid(&self, ttl: u64, now: u64) -> (r: bool)
        ensures
            r == spec_snapshot_valid(self.timestamp, ttl, now),
    {
        let elapsed: u64 = if now >= self.timestamp {
            now - self.timestamp
        } else {
            0
        };
        elapsed < ttl
    }

    /// Looks an id up, reporting a hit only out of a valid snapshot: a
    /// stale snapshot always reports `Miss`, whatever it holds.
    pub fn get(&self, id: u64, ttl: u64, now: u64) -> (r: CacheLookup)
        ensures
            match r {
                CacheLookup::Hit(rec) => {
                    &&& spec_snapshot_valid(self.timestamp, ttl, now)
                    &&& self.records@.contains_key(id)
                    &&& rec@ == self.records_model()[id]
                },
                CacheLookup::NegativeHit => {
                    &&& spec_snapshot_valid(self.timestamp, ttl, now)
                    &&& !self.records@.contains_key(id)
                    &&& self.negative@.contains(id)
                },
                CacheLookup::Miss => {
                    ||| !spec_snapshot_valid(self.timestamp, ttl, now)
                    ||| !self.covered_ids().contains(id)
                },
            },
    {
        if !self.is_valid(ttl, now) {
            return CacheLookup::Miss;
        }
        match self.records.get(&id) {
            Some(rec) => CacheLookup::Hit(rec.clone()),
            None => {
                if self.negative.contains(&id) {
                    CacheLookup::NegativeHit
                } else {
                    CacheLookup::Miss
                }
            },
        }
    }

    /// Reduces a snapshot to what the fetch path may rely on: itself while
    /// valid, and the empty snapshot once stale, which is the whole-cache
    /// invalidation policy.
    pub fn effective(self, ttl: u64, now: u64) -> (r: CacheSnapshot)
        ensures
            spec_snapshot_valid(self.timestamp, ttl, now) ==> r == self,
            !spec_snapshot_valid(self.timestamp, ttl, now) ==> r.is_empty_snapshot(),
    {
        if self.is_valid(ttl, now) {
            self
        } else {
            CacheSnapshot::empty()
        }
    }
}

/// The fail-open decision point of the cache layer: a snapshot that loaded
/// is taken as it is, and every load failure — unreadable file or
/// undecodable content alike — downgrades to the empty snapshot.
pub fn snapshot_or_empty(loaded: Result<CacheSnapshot, CacheLoadError>) -> (r: CacheSnapshot)
    ensures
        match loaded {
            Ok(snapshot) => r == snapshot,
            Err(_) => r.is_empty_snapshot(),
        },
{
    match loaded {
        Ok(snapshot) => snapshot,
        Err(_) => CacheSnapshot::empty(),
    }
}

} // verus!
