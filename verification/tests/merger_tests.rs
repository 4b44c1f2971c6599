use std::collections::HashMap;
use std::collections::HashSet;

use workshop_cache::enrich;
use workshop_cache::integrate_fetch;
use workshop_cache::merge;
use workshop_cache::order_output;
use workshop_cache::owner_ids;
use workshop_cache::plan;
use workshop_cache::u64_to_string;
use workshop_cache::CacheSnapshot;
use workshop_cache::Classification;
use workshop_cache::ItemRecord;
use workshop_cache::ITEM_CACHE_TTL_SECS;

fn record(id: u64, owner: u64, title: &str) -> ItemRecord {
    ItemRecord {
        published_file_id: id,
        title: title.to_string(),
        owner_id: owner,
        classification: Classification::Community,
        time_created: 100,
        time_updated: 200,
    }
}

fn empty_snapshot() -> CacheSnapshot {
    CacheSnapshot { records: HashMap::new(), negative: HashSet::new(), timestamp: 0 }
}

#[test]
fn test_merge_positive_and_negative() {
    // Requesting {A, B, C} with the fetch returning {A, C} leaves
    // records = {A, C} and B confirmed missing.
    let (a, b, c) = (11u64, 22u64, 33u64);
    let delta = vec![a, b, c];
    let fetched = vec![record(a, 1, "a"), record(c, 3, "c")];
    let merged = merge(empty_snapshot(), &delta, &fetched, 5_000);

    assert_eq!(merged.records.len(), 2);
    assert!(merged.records.contains_key(&a));
    assert!(merged.records.contains_key(&c));
    assert!(!merged.records.contains_key(&b));
    assert!(merged.negative.contains(&b));
    assert!(!merged.negative.contains(&a));
    assert_eq!(merged.timestamp, 5_000);
    assert_eq!(merged.records.get(&a).unwrap().title, "a");
}

#[test]
fn test_merge_overwrites_and_keeps_unrelated() {
    let mut records = HashMap::new();
    records.insert(1u64, record(1, 10, "old"));
    records.insert(9u64, record(9, 90, "kept"));
    let mut negative = HashSet::new();
    negative.insert(4u64);
    let snapshot = CacheSnapshot { records, negative, timestamp: 1_000 };

    let delta = vec![1];
    let fetched = vec![record(1, 10, "new")];
    let merged = merge(snapshot, &delta, &fetched, 2_000);

    assert_eq!(merged.records.get(&1).unwrap().title, "new");
    assert_eq!(merged.records.get(&9).unwrap().title, "kept");
    assert!(merged.negative.contains(&4));
    assert_eq!(merged.timestamp, 2_000);
}

#[test]
fn test_output_in_request_order() {
    // Requesting [5, 1, 3], all cached, yields output in exactly that order.
    let mut records = HashMap::new();
    for id in [1u64, 3, 5] {
        records.insert(id, record(id, id * 10, "t"));
    }
    let snapshot = CacheSnapshot { records, negative: HashSet::new(), timestamp: 0 };
    let out = order_output(&vec![5, 1, 3], &snapshot);
    let ids: Vec<u64> = out.iter().map(|r| r.published_file_id).collect();
    assert_eq!(ids, vec![5, 1, 3]);
}

#[test]
fn test_output_keeps_duplicates_and_drops_unresolved() {
    let mut records = HashMap::new();
    records.insert(1u64, record(1, 10, "t"));
    let snapshot = CacheSnapshot { records, negative: HashSet::new(), timestamp: 0 };
    let out = order_output(&vec![1, 2, 1], &snapshot);
    let ids: Vec<u64> = out.iter().map(|r| r.published_file_id).collect();
    assert_eq!(ids, vec![1, 1]);
}

#[test]
fn test_cache_hit_on_second_call() {
    // First call: nothing cached, everything fetched, results merged.
    let requested = vec![5u64, 1, 3];
    let now1 = 10_000u64;
    let delta1 = plan(&requested, &empty_snapshot(), ITEM_CACHE_TTL_SECS, now1);
    assert_eq!(delta1, vec![5, 1, 3]);

    let fetched = vec![record(5, 50, "five"), record(1, 10, "one"), record(3, 30, "three")];
    let (merged, out1) = integrate_fetch(empty_snapshot(), &requested, &delta1, &fetched, now1);
    let ids1: Vec<u64> = out1.iter().map(|r| r.published_file_id).collect();
    assert_eq!(ids1, vec![5, 1, 3]);

    // Second identical call within the TTL: empty delta, identical output,
    // no fetch needed.
    let now2 = now1 + ITEM_CACHE_TTL_SECS - 1;
    let delta2 = plan(&requested, &merged, ITEM_CACHE_TTL_SECS, now2);
    assert!(delta2.is_empty());
    let out2 = order_output(&requested, &merged);
    let ids2: Vec<u64> = out2.iter().map(|r| r.published_file_id).collect();
    assert_eq!(ids1, ids2);
    assert_eq!(out1.iter().map(|r| r.title.clone()).collect::<Vec<_>>(),
               out2.iter().map(|r| r.title.clone()).collect::<Vec<_>>());
}

#[test]
fn test_negative_caching_excludes_missing_id() {
    // Id 2 is requested but the fetch does not return it: later calls
    // neither fetch it again nor show it.
    let requested = vec![1u64, 2];
    let now = 10_000u64;
    let delta = plan(&requested, &empty_snapshot(), ITEM_CACHE_TTL_SECS, now);
    assert_eq!(delta, vec![1, 2]);

    let fetched = vec![record(1, 10, "one")];
    let (merged, out) = integrate_fetch(empty_snapshot(), &requested, &delta, &fetched, now);
    let ids: Vec<u64> = out.iter().map(|r| r.published_file_id).collect();
    assert_eq!(ids, vec![1]);
    assert!(merged.negative.contains(&2));

    let delta2 = plan(&requested, &merged, ITEM_CACHE_TTL_SECS, now + 100);
    assert!(delta2.is_empty());
    let out2 = order_output(&requested, &merged);
    assert!(out2.iter().all(|r| r.published_file_id != 2));
}

#[test]
fn test_owner_ids_distinct_in_first_occurrence_order() {
    let records = vec![record(1, 70, "a"), record(2, 50, "b"), record(3, 70, "c")];
    assert_eq!(owner_ids(&records), vec![70, 50]);
}

#[test]
fn test_enrich_resolves_names_and_falls_back() {
    let records = vec![record(1, 70, "a"), record(2, 50, "b")];
    let mut names = HashMap::new();
    names.insert(70u64, "Alice".to_string());
    let enriched = enrich(&records, &names);
    assert_eq!(enriched.len(), 2);
    assert_eq!(enriched[0].creator_id, "70");
    assert_eq!(enriched[0].creator_name, "Alice");
    assert_eq!(enriched[0].workshop_item.title, "a");
    assert_eq!(enriched[1].creator_id, "50");
    assert_eq!(enriched[1].creator_name, "[unknown]");
}

#[test]
fn test_u64_rendered_in_decimal() {
    assert_eq!(u64_to_string(0), "0");
    assert_eq!(u64_to_string(42), "42");
    assert_eq!(u64_to_string(76561197960287930), "76561197960287930");
    assert_eq!(u64_to_string(u64::MAX), "18446744073709551615");
}
