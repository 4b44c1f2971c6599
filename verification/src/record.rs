//! The record types that flow through the orchestrator: the metadata record
//! fetched from the external platform, and its enriched form carrying the
//! resolved owner display name.

use vstd::prelude::*;

verus! {

/// The content classification reported by the external platform for a
/// record. Only primary community content is retained by the fetch path;
/// everything else is discarded as if it had never been returned.
#[derive(Clone, Copy, PartialEq, Eq, Structural, Debug)]
pub enum Classification {
    /// Primary community content: the only classification the fetch keeps.
    Community,
    /// Any other classification (collections, microtransaction items, ...).
    Other,
}

/// One item-metadata record as returned by the external platform, held as
/// plain values. Records are value types: cloned freely and never mutated
/// in place once cached, only replaced whole.
#[derive(Debug)]
pub struct ItemRecord {
    /// The numeric id the record was published under.
    pub published_file_id: u64,
    /// Display title of the item.
    pub title: String,
    /// Numeric identifier of the owning account.
    pub owner_id: u64,
    /// Content classification used by the result filter.
    pub classification: Classification,
    /// Creation time, UNIX seconds.
    pub time_created: u64,
    /// Last-update time, UNIX seconds.
    pub time_updated: u64,
}

/// Mathematical image of an [`ItemRecord`]: the same fields with every
/// string replaced by its character sequence.
pub ghost struct ItemRecordModel {
    pub published_file_id: u64,
    pub title: Seq<char>,
    pub owner_id: u64,
    pub classification: Classification,
    pub time_created: u64,
    pub time_updated: u64,
}

impl View for ItemRecord {
    type V = ItemRecordModel;

    open spec fn view(&self) -> ItemRecordModel {
        ItemRecordModel {
            published_file_id: self.published_file_id,
            title: self.title@,
            owner_id: self.owner_id,
            classification: self.classification,
            time_created: self.time_created,
            time_updated: self.time_updated,
        }
    }
}

impl DeepView for ItemRecord {
    type V = ItemRecordModel;

    open spec fn deep_view(&self) -> ItemRecordModel {
        self@
    }
}

/// The view of one record, as a function value, so that map and sequence
/// models built from it in different modules coincide.
pub open spec fn record_view_fn() -> spec_fn(ItemRecord) -> ItemRecordModel {
    |r: ItemRecord| r@
}

/// The view of one string, as a function value, for the same reason.
pub open spec fn string_view_fn() -> spec_fn(String) -> Seq<char> {
    |s: String| s@
}

impl Clone for ItemRecord {
    fn clone(&self) -> (res: Self)
        ensures
            res@ == self@,
    {
        ItemRecord {
            published_file_id: self.published_file_id,
            title: self.title.clone(),
            owner_id: self.owner_id,
            classification: self.classification,
            time_created: self.time_created,
            time_updated: self.time_updated,
        }
    }
}

/// An [`ItemRecord`] together with the owner's display name, as produced by
/// the enrichment step at the end of the fetch path.
#[derive(Debug)]
pub struct EnhancedWorkshopItem {
    /// The underlying metadata record.
    pub workshop_item: ItemRecord,
    /// The owner's numeric id, rendered in decimal.
    pub creator_id: String,
    /// The owner's display name, or the sentinel `"[unknown]"` when
    /// resolution failed for that owner.
    pub creator_name: String,
}

/// Mathematical image of an [`EnhancedWorkshopItem`].
pub ghost struct EnhancedWorkshopItemModel {
    pub workshop_item: ItemRecordModel,
    pub creator_id: Seq<char>,
    pub creator_name: Seq<char>,
}

impl View for EnhancedWorkshopItem {
    type V = EnhancedWorkshopItemModel;

    open spec fn view(&self) -> EnhancedWorkshopItemModel {
        EnhancedWorkshopItemModel {
            workshop_item: self.workshop_item@,
            creator_id: self.creator_id@,
            creator_name: self.creator_name@,
        }
    }
}

impl DeepView for EnhancedWorkshopItem {
    type V = EnhancedWorkshopItemModel;

    open spec fn deep_view(&self) -> EnhancedWorkshopItemModel {
        self@
    }
}

impl EnhancedWorkshopItem {
    /// Pairs a record with the owner fields resolved for it.
    pub fn new(workshop_item: ItemRecord, creator_id: String, creator_name: String) -> (res: Self)
        ensures
            res@.workshop_item == workshop_item@,
            res@.creator_id == creator_id@,
            res@.creator_name == creator_name@,
    {
        Self { workshop_item, creator_id, creator_name }
    }
}

} // verus!
