//! The laws that tie planner, merger and cache together: what a merge
//! guarantees for every id, why a second identical request within the TTL
//! plans no fetch, how negative caching keeps a confirmed-missing id out
//! of later deltas and outputs, and that an all-cached request is answered
//! in exactly its own order.

use vstd::prelude::*;

use crate::planner::lemma_spec_plan_membership;
use crate::planner::spec_plan;
use crate::merger::spec_keyed_by_id;
use crate::merger::spec_order_output;
use crate::record::ItemRecordModel;

verus! {

/// Every positive record sits under its own id. A snapshot built by this
/// crate keeps this; it is what lets the output list be read off by id.
pub open spec fn well_keyed(records: Map<u64, ItemRecordModel>) -> bool {
    forall|k: u64| #[trigger] records.contains_key(k) ==> records[k].published_file_id == k
}

/// Keying a fetched batch by record id yields a well-keyed map.
pub proof fn lemma_keyed_by_id_well_keyed(fetched: Seq<ItemRecordModel>)
    ensures
        well_keyed(spec_keyed_by_id(fetched)),
    decreases fetched.len(),
{
    if fetched.len() > 0 {
        lemma_keyed_by_id_well_keyed(fetched.drop_last());
    }
}

/// Merging a well-keyed batch into a well-keyed snapshot leaves the
/// snapshot well-keyed.
pub proof fn lemma_merge_preserves_well_keyed(
    records: Map<u64, ItemRecordModel>,
    keyed: Map<u64, ItemRecordModel>,
    delta_ids: Set<u64>,
)
    requires
        well_keyed(records),
        well_keyed(keyed),
    ensures
        well_keyed(records.union_prefer_right(keyed.restrict(delta_ids))),
{
}

/// Merge correctness, read pointwise: a delta id the fetch returned is
/// positively cached with the fetched record; a delta id the fetch did
/// not return is confirmed missing; an id outside the delta keeps exactly
/// the standing it had.
pub proof fn lemma_merge_correctness(
    records: Map<u64, ItemRecordModel>,
    negative: Set<u64>,
    delta: Seq<u64>,
    keyed: Map<u64, ItemRecordModel>,
    id: u64,
)
    ensures
        ({
            let merged_records = records.union_prefer_right(keyed.restrict(delta.to_set()));
            let merged_negative = negative + (delta.to_set() - keyed.dom());
            &&& delta.contains(id) && keyed.contains_key(id) ==> merged_records.contains_key(id)
                && merged_records[id] == keyed[id]
            &&& delta.contains(id) && !keyed.contains_key(id) ==> merged_negative.contains(id)
            &&& !delta.contains(id) ==> (merged_records.contains_key(id) <==> records.contains_key(
                id,
            )) && (records.contains_key(id) ==> merged_records[id] == records[id]) && (
            merged_negative.contains(id) <==> negative.contains(id))
        }),
{
}

/// What a merge covers: every delta id and everything the snapshot already
/// covered is positively or negatively cached afterwards.
pub proof fn lemma_merged_covers(
    records: Map<u64, ItemRecordModel>,
    negative: Set<u64>,
    delta: Seq<u64>,
    keyed: Map<u64, ItemRecordModel>,
)
    ensures
        ({
            let merged_records = records.union_prefer_right(keyed.restrict(delta.to_set()));
            let merged_negative = negative + (delta.to_set() - keyed.dom());
            forall|id: u64|
                #![auto]
                delta.contains(id) || records.contains_key(id) || negative.contains(id)
                    ==> merged_records.dom().contains(id) || merged_negative.contains(id)
        }),
{
}

/// Cache-hit law: after one fetch has merged the delta planned for a
/// request, planning the identical request against the merged snapshot
/// yields the empty delta — while the snapshot stays valid, the bridge is
/// never invoked again.
pub proof fn lemma_second_plan_is_empty(
    requested: Seq<u64>,
    records: Map<u64, ItemRecordModel>,
    negative: Set<u64>,
    keyed: Map<u64, ItemRecordModel>,
)
    ensures
        ({
            let delta = spec_plan(requested, records.dom() + negative);
            let merged_records = records.union_prefer_right(keyed.restrict(delta.to_set()));
            let merged_negative = negative + (delta.to_set() - keyed.dom());
            spec_plan(requested, merged_records.dom() + merged_negative) == Seq::<u64>::empty()
        }),
{
    let covered = records.dom() + negative;
    let delta = spec_plan(requested, covered);
    let merged_records = records.union_prefer_right(keyed.restrict(delta.to_set()));
    let merged_negative = negative + (delta.to_set() - keyed.dom());
    let covered_after = merged_records.dom() + merged_negative;
    let replanned = spec_plan(requested, covered_after);
    lemma_spec_plan_membership(requested, covered);
    lemma_spec_plan_membership(requested, covered_after);
    lemma_merged_covers(records, negative, delta, keyed);
    if replanned.len() > 0 {
        let id0: u64 = replanned[0];
        assert(replanned.contains(id0));
        assert(requested.contains(id0) && !covered_after.contains(id0));
        assert(delta.contains(id0) || covered.contains(id0));
        assert(merged_records.dom().contains(id0) || merged_negative.contains(id0));
        assert(false);
    }
    assert(replanned =~= Seq::<u64>::empty());
}

/// Every record in the output list is the one the snapshot holds for some
/// requested id, so an id the snapshot does not positively cache never
/// appears in the output.
pub proof fn lemma_output_excludes_uncached(
    requested: Seq<u64>,
    records: Map<u64, ItemRecordModel>,
    x: u64,
)
    requires
        well_keyed(records),
        !records.contains_key(x),
    ensures
        forall|i: int|
            0 <= i < spec_order_output(requested, records).len() ==> (#[trigger] spec_order_output(
                requested,
                records,
            )[i]).published_file_id != x,
    decreases requested.len(),
{
    if requested.len() > 0 {
        lemma_output_excludes_uncached(requested.drop_last(), records, x);
    }
}

/// Negative caching: a planned id the fetch did not return is confirmed
/// missing by the merge, stays out of the positive records, is excluded
/// from every delta planned against the merged snapshot, and never
/// appears in an output list built from it.
pub proof fn lemma_negative_caching(
    requested: Seq<u64>,
    records: Map<u64, ItemRecordModel>,
    negative: Set<u64>,
    keyed: Map<u64, ItemRecordModel>,
    later_request: Seq<u64>,
    x: u64,
)
    requires
        well_keyed(records),
        well_keyed(keyed),
        spec_plan(requested, records.dom() + negative).contains(x),
        !keyed.contains_key(x),
        !records.contains_key(x),
    ensures
        ({
            let delta = spec_plan(requested, records.dom() + negative);
            let merged_records = records.union_prefer_right(keyed.restrict(delta.to_set()));
            let merged_negative = negative + (delta.to_set() - keyed.dom());
            &&& merged_negative.contains(x)
            &&& !merged_records.contains_key(x)
            &&& !spec_plan(later_request, merged_records.dom() + merged_negative).contains(x)
            &&& forall|i: int|
                0 <= i < spec_order_output(later_request, merged_records).len() ==> (
                #[trigger] spec_order_output(later_request, merged_records)[i]).published_file_id
                    != x
        }),
{
    let delta = spec_plan(requested, records.dom() + negative);
    let merged_records = records.union_prefer_right(keyed.restrict(delta.to_set()));
    let merged_negative = negative + (delta.to_set() - keyed.dom());
    lemma_spec_plan_membership(later_request, merged_records.dom() + merged_negative);
    lemma_merge_preserves_well_keyed(records, keyed, delta.to_set());
    lemma_output_excludes_uncached(later_request, merged_records, x);
    assert(merged_negative.contains(x));
    assert((merged_records.dom() + merged_negative).contains(x));
    assert(!spec_plan(later_request, merged_records.dom() + merged_negative).contains(x));
}

/// Order preservation: when every requested id is positively cached, the
/// output has exactly one record per requested position — the cached
/// record of that id — in exactly the request's order.
pub proof fn lemma_output_order_all_cached(requested: Seq<u64>, records: Map<u64, ItemRecordModel>)
    requires
        forall|id: u64| requested.contains(id) ==> #[trigger] records.contains_key(id),
    ensures
        spec_order_output(requested, records).len() == requested.len(),
        forall|i: int|
            0 <= i < requested.len() ==> #[trigger] spec_order_output(requested, records)[i]
                == records[requested[i]],
    decreases requested.len(),
{
    broadcast use vstd::seq_lib::group_seq_properties;

    if requested.len() > 0 {
        assert forall|id: u64| requested.drop_last().contains(id) implies #[trigger] records.contains_key(
            id,
        ) by {
            assert(requested.contains(id));
        }
        lemma_output_order_all_cached(requested.drop_last(), records);
        assert(requested.last() == requested[requested.len() - 1]);
        assert(requested.contains(requested.last()));
    }
}

} // verus!
