use std::collections::HashMap;
use std::collections::HashSet;

use workshop_cache::snapshot_or_empty;
use workshop_cache::CacheLoadError;
use workshop_cache::CacheLookup;
use workshop_cache::CacheSnapshot;
use workshop_cache::Classification;
use workshop_cache::ItemRecord;
use workshop_cache::PathLookupCache;
use workshop_cache::TimedValue;
use workshop_cache::ITEM_CACHE_TTL_SECS;
use workshop_cache::PATH_CACHE_TTL_SECS;

fn record(id: u64) -> ItemRecord {
    ItemRecord {
        published_file_id: id,
        title: format!("item {}", id),
        owner_id: id + 1,
        classification: Classification::Community,
        time_created: 7,
        time_updated: 8,
    }
}

fn snapshot(timestamp: u64) -> CacheSnapshot {
    let mut records = HashMap::new();
    records.insert(1u64, record(1));
    let mut negative = HashSet::new();
    negative.insert(2u64);
    CacheSnapshot { records, negative, timestamp }
}

#[test]
fn test_ttl_constants() {
    assert_eq!(ITEM_CACHE_TTL_SECS, 24 * 60 * 60);
    assert_eq!(PATH_CACHE_TTL_SECS, 60 * 60);
}

#[test]
fn test_load_failure_degrades_to_empty() {
    for err in [CacheLoadError::Io, CacheLoadError::Decode] {
        let snap = snapshot_or_empty(Err(err));
        assert!(snap.records.is_empty());
        assert!(snap.negative.is_empty());
        assert_eq!(snap.timestamp, 0);
    }
    let loaded = snapshot_or_empty(Ok(snapshot(123)));
    assert_eq!(loaded.timestamp, 123);
    assert_eq!(loaded.records.len(), 1);
}

#[test]
fn test_valid_snapshot_reports_hits() {
    let snap = snapshot(1_000);
    match snap.get(1, ITEM_CACHE_TTL_SECS, 1_500) {
        CacheLookup::Hit(rec) => assert_eq!(rec.published_file_id, 1),
        _ => panic!("expected a positive hit"),
    }
    assert!(matches!(snap.get(2, ITEM_CACHE_TTL_SECS, 1_500), CacheLookup::NegativeHit));
    assert!(matches!(snap.get(3, ITEM_CACHE_TTL_SECS, 1_500), CacheLookup::Miss));
}

#[test]
fn test_stale_snapshot_reports_only_misses() {
    let snap = snapshot(1_000);
    let now = 1_000 + ITEM_CACHE_TTL_SECS;
    assert!(matches!(snap.get(1, ITEM_CACHE_TTL_SECS, now), CacheLookup::Miss));
    assert!(matches!(snap.get(2, ITEM_CACHE_TTL_SECS, now), CacheLookup::Miss));
}

#[test]
fn test_effective_empties_a_stale_snapshot() {
    let fresh = snapshot(1_000).effective(ITEM_CACHE_TTL_SECS, 1_500);
    assert_eq!(fresh.records.len(), 1);
    let stale = snapshot(1_000).effective(ITEM_CACHE_TTL_SECS, 1_000 + ITEM_CACHE_TTL_SECS);
    assert!(stale.records.is_empty());
    assert!(stale.negative.is_empty());
    assert_eq!(stale.timestamp, 0);
}

#[test]
fn test_path_lookup_cache_honours_ttl() {
    let mut cache: PathLookupCache<Result<String, String>> = PathLookupCache::new_at(1_000);
    cache.store(440, Ok("/games/one".to_string()), 1_000);
    cache.store(570, Err("not installed".to_string()), 1_000);

    let hit = cache.lookup(440, PATH_CACHE_TTL_SECS, 1_500);
    assert_eq!(hit, Some(&Ok("/games/one".to_string())));
    let negative = cache.lookup(570, PATH_CACHE_TTL_SECS, 1_500);
    assert_eq!(negative, Some(&Err("not installed".to_string())));
    assert_eq!(cache.lookup(999, PATH_CACHE_TTL_SECS, 1_500), None);

    let stale_at = 1_000 + PATH_CACHE_TTL_SECS;
    assert_eq!(cache.lookup(440, PATH_CACHE_TTL_SECS, stale_at), None);
}

#[test]
fn test_timed_value_expires() {
    let cached = TimedValue::new_at(vec!["/lib/a".to_string()], 2_000);
    assert_eq!(cached.current(PATH_CACHE_TTL_SECS, 2_500), Some(&vec!["/lib/a".to_string()]));
    assert_eq!(cached.current(PATH_CACHE_TTL_SECS, 2_000 + PATH_CACHE_TTL_SECS), None);
}
