//! The result merger: folds a fetched batch back into the snapshot —
//! negatively caching the ids the fetch did not return — rebuilds the
//! output strictly in request order, and enriches each record with its
//! owner's display name.

use std::collections::HashMap;
use std::collections::HashSet;
use vstd::prelude::*;

use crate::cache::CacheSnapshot;
use crate::decimal::spec_dec_digits;
use crate::decimal::u64_to_string;
use crate::record::record_view_fn;
use crate::record::string_view_fn;
use crate::record::EnhancedWorkshopItem;
use crate::record::EnhancedWorkshopItemModel;
use crate::record::ItemRecord;
use crate::record::ItemRecordModel;

verus! {

broadcast use vstd::std_specs::hash::group_hash_axioms;

/// A fetched batch as a map from id to record, later entries winning over
/// earlier ones with the same id.
pub open spec fn spec_keyed_by_id(fetched: Seq<ItemRecordModel>) -> Map<u64, ItemRecordModel>
    decreases fetched.len(),
{
    if fetched.len() == 0 {
        Map::empty()
    } else {
        spec_keyed_by_id(fetched.drop_last()).insert(
            fetched.last().published_file_id,
            fetched.last(),
        )
    }
}

/// Taking record views commutes with inserting into the keyed map.
proof fn lemma_records_model_insert(m: Map<u64, ItemRecord>, k: u64, v: ItemRecord)
    ensures
        m.insert(k, v).map_values(record_view_fn()) =~= m.map_values(record_view_fn()).insert(
            k,
            v@,
        ),
{
}

/// Keys a fetched batch by record id, later entries winning.
pub fn keyed_by_id(fetched: &Vec<ItemRecord>) -> (m: HashMap<u64, ItemRecord>)
    ensures
        m@.map_values(record_view_fn()) == spec_keyed_by_id(fetched.deep_view()),
{
    let mut m: HashMap<u64, ItemRecord> = HashMap::new();
    let mut i: usize = 0;
    proof {
        assert(fetched.deep_view().take(0) =~= Seq::<ItemRecordModel>::empty());
        assert(m@.map_values(record_view_fn()) =~= Map::<u64, ItemRecordModel>::empty());
    }
    while i < fetched.len()
        invariant
            i <= fetched.len(),
            fetched.deep_view().len() == fetched.len(),
            m@.map_values(record_view_fn()) == spec_keyed_by_id(
                fetched.deep_view().take(i as int),
            ),
        decreases fetched.len() - i,
    {
        let rec = fetched[i].clone();
        let id = rec.published_file_id;
        let ghost prev = m@;
        let ghost grec = rec;
        m.insert(id, rec);
        proof {
            lemma_records_model_insert(prev, id, grec);
            assert(fetched.deep_view().take(i + 1).drop_last() =~= fetched.deep_view().take(
                i as int,
            ));
            assert(fetched.deep_view().take(i + 1).last() == fetched.deep_view()[i as int]);
        }
        i = i + 1;
    }
    proof {
        assert(fetched.deep_view().take(fetched.len() as int) =~= fetched.deep_view());
    }
    m
}

/// Folds a fetched batch into the snapshot: each delta id the fetch
/// returned is inserted or overwritten positively; each delta id it did
/// not return is confirmed missing; everything else is untouched; and the
/// snapshot's clock is set to `now`.
pub fn merge(snapshot: CacheSnapshot, delta: &Vec<u64>, fetched: &Vec<ItemRecord>, now: u64) -> (r:
    CacheSnapshot)
    ensures
        r.records_model() == snapshot.records_model().union_prefer_right(
            spec_keyed_by_id(fetched.deep_view()).restrict(delta@.to_set()),
        ),
        r.negative@ == snapshot.negative@ + (delta@.to_set() - spec_keyed_by_id(
            fetched.deep_view(),
        ).dom()),
        r.timestamp == now,
{
    broadcast use vstd::seq_lib::group_seq_properties;

    let keyed = keyed_by_id(fetched);
    let ghost keyed_model = spec_keyed_by_id(fetched.deep_view());
    let CacheSnapshot { records, negative, timestamp: _ } = snapshot;
    let mut records = records;
    let mut negative = negative;
    let ghost base_records = snapshot.records_model();
    let ghost base_negative = snapshot.negative@;
    let mut i: usize = 0;
    proof {
        assert(delta@.take(0).to_set() =~= Set::<u64>::empty());
        assert(records@.map_values(record_view_fn()) =~= base_records.union_prefer_right(
            keyed_model.restrict(delta@.take(0).to_set()),
        ));
        assert(negative@ =~= base_negative + (delta@.take(0).to_set() - keyed_model.dom()));
    }
    while i < delta.len()
        invariant
            i <= delta.len(),
            keyed@.map_values(record_view_fn()) == keyed_model,
            records@.map_values(record_view_fn()) == base_records.union_prefer_right(
                keyed_model.restrict(delta@.take(i as int).to_set()),
            ),
            negative@ == base_negative + (delta@.take(i as int).to_set() - keyed_model.dom()),
        decreases delta.len() - i,
    {
        broadcast use vstd::seq_lib::group_seq_properties;

        let id = delta[i];
        proof {
            assert(delta@.take(i + 1) =~= delta@.take(i as int).push(id));
            assert(delta@.take(i + 1).to_set() =~= delta@.take(i as int).to_set().insert(id));
        }
        match keyed.get(&id) {
            Some(rec) => {
                let rc = rec.clone();
                let ghost grc = rc;
                let ghost prevr = records@;
                records.insert(id, rc);
                proof {
                    lemma_records_model_insert(prevr, id, grc);
                    assert(keyed_model.dom().contains(id) && grc@ == keyed_model[id]);
                    assert(prevr.map_values(record_view_fn()).insert(id, grc@)
                        =~= base_records.union_prefer_right(
                        keyed_model.restrict(delta@.take(i + 1).to_set()),
                    ));
                }
            },
            None => {
                negative.insert(id);
                proof {
                    assert(!keyed_model.dom().contains(id));
                    assert(base_negative + (delta@.take(i as int).to_set() - keyed_model.dom())
                        + Set::<u64>::empty().insert(id) =~= base_negative + (delta@.take(
                        i + 1,
                    ).to_set() - keyed_model.dom()));
                    assert(negative@ =~= base_negative + (delta@.take(i + 1).to_set()
                        - keyed_model.dom()));
                }
            },
        }
        i = i + 1;
    }
    proof {
        assert(delta@.take(delta@.len() as int) =~= delta@);
    }
    CacheSnapshot { records, negative, timestamp: now }
}

/// The output list for a request: the record cached for each requested id,
/// in request order — duplicates included — with the still-uncached ids
/// silently dropped.
pub open spec fn spec_order_output(
    requested: Seq<u64>,
    records: Map<u64, ItemRecordModel>,
) -> Seq<ItemRecordModel>
    decreases requested.len(),
{
    if requested.len() == 0 {
        Seq::empty()
    } else {
        let rest = spec_order_output(requested.drop_last(), records);
        let id = requested.last();
        if records.contains_key(id) {
            rest.push(records[id])
        } else {
            rest
        }
    }
}

/// Rebuilds the output strictly in request order from the snapshot's
/// positive records, dropping ids the snapshot still lacks.
pub fn order_output(requested: &Vec<u64>, snapshot: &CacheSnapshot) -> (r: Vec<ItemRecord>)
    ensures
        r.deep_view() == spec_order_output(requested@, snapshot.records_model()),
{
    let mut out: Vec<ItemRecord> = Vec::new();
    let mut i: usize = 0;
    proof {
        assert(requested@.take(0) =~= Seq::<u64>::empty());
        assert(out.deep_view() =~= Seq::<ItemRecordModel>::empty());
    }
    while i < requested.len()
        invariant
            i <= requested.len(),
            out.deep_view() == spec_order_output(
                requested@.take(i as int),
                snapshot.records_model(),
            ),
        decreases requested.len() - i,
    {
        let id = requested[i];
        proof {
            assert(requested@.take(i + 1).drop_last() =~= requested@.take(i as int));
            assert(requested@.take(i + 1).last() == id);
        }
        match snapshot.records.get(&id) {
            Some(rec) => {
                let ghost prev = out.deep_view();
                out.push(rec.clone());
                proof {
                    assert(snapshot.records_model().contains_key(id) && (*rec)@
                        == snapshot.records_model()[id]);
                    assert(out.deep_view() =~= prev.push(snapshot.records_model()[id]));
                }
            },
            None => {
                proof {
                    assert(!snapshot.records_model().contains_key(id));
                }
            },
        }
        i = i + 1;
    }
    proof {
        assert(requested@.take(requested@.len() as int) =~= requested@);
    }
    out
}

/// The pure tail of one fetch: folds the filtered records into the
/// effective snapshot — negatively caching the delta ids the fetch did
/// not return — stamps it `now`, and rebuilds the output strictly in
/// request order from it.
pub fn integrate_fetch(
    snapshot: CacheSnapshot,
    requested: &Vec<u64>,
    delta: &Vec<u64>,
    kept: &Vec<ItemRecord>,
    now: u64,
) -> (r: (CacheSnapshot, Vec<ItemRecord>))
    ensures
        r.0.records_model() == snapshot.records_model().union_prefer_right(
            spec_keyed_by_id(kept.deep_view()).restrict(delta@.to_set()),
        ),
        r.0.negative@ == snapshot.negative@ + (delta@.to_set() - spec_keyed_by_id(
            kept.deep_view(),
        ).dom()),
        r.0.timestamp == now,
        r.1.deep_view() == spec_order_output(requested@, r.0.records_model()),
{
    let merged = merge(snapshot, delta, kept, now);
    let out = order_output(requested, &merged);
    (merged, out)
}

/// The distinct owner ids of an output list, in order of first occurrence:
/// the batch handed to the name resolver, once per fetch.
pub open spec fn spec_owner_ids(records: Seq<ItemRecordModel>) -> Seq<u64>
    decreases records.len(),
{
    if records.len() == 0 {
        Seq::empty()
    } else {
        let rest = spec_owner_ids(records.drop_last());
        let owner = records.last().owner_id;
        if rest.contains(owner) {
            rest
        } else {
            rest.push(owner)
        }
    }
}

/// The owner batch holds exactly the owners that occur in the list, each
/// once: the name resolver is asked once per distinct owner.
pub proof fn lemma_owner_ids_membership(records: Seq<ItemRecordModel>)
    ensures
        forall|o: u64|
            spec_owner_ids(records).contains(o) <==> exists|i: int|
                0 <= i < records.len() && #[trigger] records[i].owner_id == o,
        spec_owner_ids(records).no_duplicates(),
    decreases records.len(),
{
    broadcast use vstd::seq_lib::group_seq_properties;

    if records.len() > 0 {
        lemma_owner_ids_membership(records.drop_last());
        assert(records =~= records.drop_last().push(records.last()));
        assert forall|o: u64| #![auto] spec_owner_ids(records).contains(o) implies exists|i: int|
            0 <= i < records.len() && #[trigger] records[i].owner_id == o by {
            if spec_owner_ids(records.drop_last()).contains(o) {
                let i: int = choose|i: int|
                    0 <= i < records.drop_last().len() && #[trigger] records.drop_last()[i].owner_id
                        == o;
                assert(records[i].owner_id == o);
            } else {
                assert(records[records.len() - 1].owner_id == o);
            }
        }
        assert forall|o: u64| #![auto]
            (exists|i: int| 0 <= i < records.len() && #[trigger] records[i].owner_id == o) implies
            spec_owner_ids(records).contains(o) by {
            let i: int = choose|i: int| 0 <= i < records.len() && #[trigger] records[i].owner_id == o;
            if i < records.len() - 1 {
                assert(records.drop_last()[i].owner_id == o);
            }
        }
    }
}

/// Collects the distinct owner ids of `records`, in order of first
/// occurrence.
pub fn owner_ids(records: &Vec<ItemRecord>) -> (r: Vec<u64>)
    ensures
        r@ == spec_owner_ids(records.deep_view()),
{
    let mut out: Vec<u64> = Vec::new();
    let mut seen: HashSet<u64> = HashSet::new();
    let mut i: usize = 0;
    proof {
        assert(records.deep_view().take(0) =~= Seq::<ItemRecordModel>::empty());
    }
    while i < records.len()
        invariant
            i <= records.len(),
            records.deep_view().len() == records.len(),
            out@ == spec_owner_ids(records.deep_view().take(i as int)),
            forall|x: u64| seen@.contains(x) <==> out@.contains(x),
        decreases records.len() - i,
    {
        broadcast use vstd::seq_lib::group_seq_properties;

        let owner = records[i].owner_id;
        proof {
            assert(records.deep_view().take(i + 1).drop_last() =~= records.deep_view().take(
                i as int,
            ));
            assert(records.deep_view().take(i + 1).last() == records.deep_view()[i as int]);
            assert(records.deep_view()[i as int].owner_id == owner);
        }
        if !seen.contains(&owner) {
            let ghost prev = out@;
            out.push(owner);
            seen.insert(owner);
            proof {
                assert(forall|x: u64|
                    prev.push(owner).contains(x) <==> (prev.contains(x) || x == owner));
            }
        }
        i = i + 1;
    }
    proof {
        assert(records.deep_view().take(records@.len() as int) =~= records.deep_view());
    }
    out
}

/// One record enriched against a name table: the owner id rendered in
/// decimal, and the resolved display name — or the sentinel `"[unknown]"`
/// when the table has nothing for that owner, so one unresolved owner
/// never fails the batch.
pub open spec fn spec_enriched(
    rec: ItemRecordModel,
    names: Map<u64, Seq<char>>,
) -> EnhancedWorkshopItemModel {
    EnhancedWorkshopItemModel {
        workshop_item: rec,
        creator_id: spec_dec_digits(rec.owner_id as nat),
        creator_name: if names.contains_key(rec.owner_id) {
            names[rec.owner_id]
        } else {
            "[unknown]"@
        },
    }
}

/// Enriches every record of an output list against one resolved name
/// table, in order.
pub fn enrich(records: &Vec<ItemRecord>, names: &HashMap<u64, String>) -> (r: Vec<
    EnhancedWorkshopItem,
>)
    ensures
        r.deep_view().len() == records.deep_view().len(),
        forall|i: int|
            0 <= i < records.deep_view().len() ==> r.deep_view()[i] == spec_enriched(
                records.deep_view()[i],
                names@.map_values(string_view_fn()),
            ),
{
    let ghost names_model = names@.map_values(string_view_fn());
    let mut out: Vec<EnhancedWorkshopItem> = Vec::new();
    let mut i: usize = 0;
    while i < records.len()
        invariant
            i <= records.len(),
            records.deep_view().len() == records.len(),
            names_model == names@.map_values(string_view_fn()),
            out.deep_view().len() == i,
            forall|j: int|
                0 <= j < i as int ==> out.deep_view()[j] == spec_enriched(
                    records.deep_view()[j],
                    names_model,
                ),
        decreases records.len() - i,
    {
        let rec = records[i].clone();
        let owner = rec.owner_id;
        let name = match names.get(&owner) {
            Some(resolved) => {
                proof {
                    assert(names_model.contains_key(owner) && (*resolved)@ == names_model[owner]);
                }
                resolved.clone()
            },
            None => {
                proof {
                    assert(!names_model.contains_key(owner));
                }
                "[unknown]".to_owned()
            },
        };
        let creator_id = u64_to_string(owner);
        let enriched = EnhancedWorkshopItem::new(rec, creator_id, name);
        let ghost prev = out.deep_view();
        let ghost genriched = enriched;
        out.push(enriched);
        proof {
            assert(out.deep_view() =~= prev.push(genriched@));
            assert(genriched@ == spec_enriched(records.deep_view()[i as int], names_model));
        }
        i = i + 1;
    }
    out
}

} // verus!
