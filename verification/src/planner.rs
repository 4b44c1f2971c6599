//! The fetch planner: given the requested ids and the cache snapshot, it
//! computes the delta that must be fetched fresh — nothing when every id
//! is covered, everything when the snapshot as a whole has gone stale.

use std::collections::HashSet;
use vstd::prelude::*;

use crate::cache::spec_snapshot_valid;
use crate::cache::CacheSnapshot;

verus! {

broadcast use vstd::std_specs::hash::group_hash_axioms;

/// The requested ids not covered by `covered`, deduplicated, in order of
/// first occurrence.
pub open spec fn spec_plan(requested: Seq<u64>, covered: Set<u64>) -> Seq<u64>
    decreases requested.len(),
{
    if requested.len() == 0 {
        Seq::empty()
    } else {
        let rest = spec_plan(requested.drop_last(), covered);
        let id = requested.last();
        if covered.contains(id) || rest.contains(id) {
            rest
        } else {
            rest.push(id)
        }
    }
}

/// The fetch delta for a request against a snapshot: while the snapshot is
/// valid, the requested ids it covers neither positively nor negatively;
/// once it is stale, every requested id — whole-snapshot invalidation.
/// Either way the delta is deduplicated, in order of first occurrence.
pub open spec fn spec_fetch_delta(
    requested: Seq<u64>,
    snapshot: CacheSnapshot,
    ttl: u64,
    now: u64,
) -> Seq<u64> {
    if spec_snapshot_valid(snapshot.timestamp, ttl, now) {
        spec_plan(requested, snapshot.covered_ids())
    } else {
        spec_plan(requested, Set::empty())
    }
}

/// The planned delta holds exactly the requested ids outside `covered`,
/// each once.
pub proof fn lemma_spec_plan_membership(requested: Seq<u64>, covered: Set<u64>)
    ensures
        forall|id: u64|
            spec_plan(requested, covered).contains(id) <==> (requested.contains(id)
                && !covered.contains(id)),
        spec_plan(requested, covered).no_duplicates(),
    decreases requested.len(),
{
    broadcast use vstd::seq_lib::group_seq_properties;

    if requested.len() > 0 {
        lemma_spec_plan_membership(requested.drop_last(), covered);
        assert(requested =~= requested.drop_last().push(requested.last()));
    }
}

/// Computes the fetch delta of `requested` against `snapshot` at `now`
/// under `ttl`.
pub fn plan(requested: &Vec<u64>, snapshot: &CacheSnapshot, ttl: u64, now: u64) -> (delta: Vec<
    u64,
>)
    ensures
        delta@ == spec_fetch_delta(requested@, *snapshot, ttl, now),
{
    let valid = snapshot.is_valid(ttl, now);
    let ghost covered: Set<u64> = if valid {
        snapshot.covered_ids()
    } else {
        Set::<u64>::empty()
    };
    let mut delta: Vec<u64> = Vec::new();
    let mut seen: HashSet<u64> = HashSet::new();
    let mut i: usize = 0;
    proof {
        assert(requested@.take(0) =~= Seq::<u64>::empty());
    }
    while i < requested.len()
        invariant
            i <= requested.len(),
            valid == spec_snapshot_valid(snapshot.timestamp, ttl, now),
            covered == (if valid {
                snapshot.covered_ids()
            } else {
                Set::<u64>::empty()
            }),
            delta@ == spec_plan(requested@.take(i as int), covered),
            forall|x: u64| seen@.contains(x) <==> delta@.contains(x),
        decreases requested.len() - i,
    {
        broadcast use vstd::seq_lib::group_seq_properties;

        let id = requested[i];
        proof {
            assert(requested@.take(i + 1).drop_last() =~= requested@.take(i as int));
            assert(requested@.take(i + 1).last() == id);
        }
        let in_covered = if valid {
            snapshot.records.contains_key(&id) || snapshot.negative.contains(&id)
        } else {
            false
        };
        if !in_covered && !seen.contains(&id) {
            let ghost prev = delta@;
            delta.push(id);
            seen.insert(id);
            proof {
                assert(forall|x: u64| prev.push(id).contains(x) <==> (prev.contains(x) || x == id));
            }
        }
        i = i + 1;
    }
    proof {
        assert(requested@.take(requested@.len() as int) =~= requested@);
    }
    delta
}

/// An empty request plans no fetch at all, whatever the snapshot holds
/// and however stale it is.
pub proof fn lemma_empty_request_plans_nothing(snapshot: CacheSnapshot, ttl: u64, now: u64)
    ensures
        spec_fetch_delta(Seq::empty(), snapshot, ttl, now) == Seq::<u64>::empty(),
{
}

/// Once the TTL has elapsed, the snapshot is stale as a whole: the delta
/// holds every requested id again — each exactly once — regardless of
/// what the snapshot had cached.
pub proof fn lemma_expired_snapshot_replans_everything(
    requested: Seq<u64>,
    snapshot: CacheSnapshot,
    ttl: u64,
    now: u64,
)
    requires
        now >= snapshot.timestamp,
        now - snapshot.timestamp >= ttl,
    ensures
        forall|id: u64| #[trigger]
            spec_fetch_delta(requested, snapshot, ttl, now).contains(id) <==> requested.contains(
                id,
            ),
        spec_fetch_delta(requested, snapshot, ttl, now).no_duplicates(),
{
    lemma_spec_plan_membership(requested, Set::empty());
}

} // verus!
