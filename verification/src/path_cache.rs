//! The one-hour lookup caches of the path commands: a keyed cache of
//! per-application results, and a single timed value, both invalidated as
//! a whole once their TTL elapses.

use std::collections::HashMap;
use vstd::prelude::*;

use crate::cache::spec_snapshot_valid;

verus! {

broadcast use vstd::std_specs::hash::group_hash_axioms;

/// A cache of one result per application id, taken at one time and
/// invalidated as a whole when the TTL elapses.
#[derive(Debug)]
pub struct PathLookupCache<T> {
    /// The cached result per application id.
    pub entries: HashMap<u32, T>,
    /// UNIX seconds at which the cache was last written.
    pub timestamp: u64,
}

impl<T> PathLookupCache<T> {
    /// An empty cache stamped `now`.
    pub fn new_at(now: u64) -> (r: Self)
        ensures
            r.entries@ == Map::<u32, T>::empty(),
            r.timestamp == now,
    {
        PathLookupCache { entries: HashMap::new(), timestamp: now }
    }

    /// The cached result for an application, out of a still-valid cache
    /// only: a stale cache answers nothing, whatever it holds.
    pub fn lookup(&self, app_id: u32, ttl: u64, now: u64) -> (r: Option<&T>)
        ensures
            match r {
                Some(v) => {
                    &&& spec_snapshot_valid(self.timestamp, ttl, now)
                    &&& self.entries@.contains_key(app_id)
                    &&& *v == self.entries@[app_id]
                },
                None => {
                    ||| !spec_snapshot_valid(self.timestamp, ttl, now)
                    ||| !self.entries@.contains_key(app_id)
                },
            },
    {
        let elapsed: u64 = if now >= self.timestamp {
            now - self.timestamp
        } else {
            0
        };
        if elapsed < ttl {
            self.entries.get(&app_id)
        } else {
            None
        }
    }

    /// Stores a result for an application and restamps the cache.
    pub fn store(&mut self, app_id: u32, value: T, now: u64)
        ensures
            final(self).entries@ == old(self).entries@.insert(app_id, value),
            final(self).timestamp == now,
    {
        self.entries.insert(app_id, value);
        self.timestamp = now;
    }
}

/// One value taken at one time, answered only while its TTL lasts.
#[derive(Debug)]
pub struct TimedValue<T> {
    /// The cached value.
    pub value: T,
    /// UNIX seconds at which the value was taken.
    pub timestamp: u64,
}

impl<T> TimedValue<T> {
    /// A value stamped `now`.
    pub fn new_at(value: T, now: u64) -> (r: Self)
        ensures
            r.value == value,
            r.timestamp == now,
    {
        TimedValue { value, timestamp: now }
    }

    /// The value, while it is still fresh; nothing once stale.
    pub fn current(&self, ttl: u64, now: u64) -> (r: Option<&T>)
        ensures
            match r {
                Some(v) => spec_snapshot_valid(self.timestamp, ttl, now) && *v == self.value,
                None => !spec_snapshot_valid(self.timestamp, ttl, now),
            },
    {
        let elapsed: u64 = if now >= self.timestamp {
            now - self.timestamp
        } else {
            0
        };
        if elapsed < ttl {
            Some(&self.value)
        } else {
            None
        }
    }
}

} // verus!
