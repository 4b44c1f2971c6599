//! A cached-fetch orchestrator for workshop item metadata.
//!
//! The crate coordinates a time-bounded local cache of fetched records with
//! an external, callback-driven content platform: it decides which requested
//! ids need a fresh fetch, drives the fetch through an explicit state
//! machine, merges the results (including confirmed-missing markers) back
//! into the cache, and rebuilds an enriched output list in request order.

mod bridge;
mod cache;
mod decimal;
mod laws;
mod merger;
mod path_cache;
mod planner;
mod record;
mod tokens;

pub use path_cache::PathLookupCache;
pub use path_cache::TimedValue;
pub use tokens::first_key_value;
pub use tokens::install_dir_from_tokens;
pub use tokens::key_values;
pub use tokens::library_paths_from_tokens;
pub use tokens::spec_collapse_backslashes;
pub use tokens::spec_first_key_value;
pub use tokens::spec_first_key_value_from;
pub use tokens::spec_key_values;
pub use tokens::spec_key_values_from;
pub use tokens::spec_library_paths;

pub use laws::lemma_keyed_by_id_well_keyed;
pub use laws::lemma_merge_correctness;
pub use laws::lemma_merge_preserves_well_keyed;
pub use laws::lemma_merged_covers;
pub use laws::lemma_negative_caching;
pub use laws::lemma_output_excludes_uncached;
pub use laws::lemma_output_order_all_cached;
pub use laws::lemma_second_plan_is_empty;
pub use laws::well_keyed;

pub use merger::enrich;
pub use merger::integrate_fetch;
pub use merger::keyed_by_id;
pub use merger::lemma_owner_ids_membership;
pub use merger::merge;
pub use merger::order_output;
pub use merger::owner_ids;
pub use merger::spec_enriched;
pub use merger::spec_keyed_by_id;
pub use merger::spec_order_output;
pub use merger::spec_owner_ids;

pub use decimal::spec_dec_digits;
pub use decimal::spec_digit_char;
pub use decimal::u64_to_string;

pub use planner::lemma_empty_request_plans_nothing;
pub use planner::lemma_expired_snapshot_replans_everything;
pub use planner::lemma_spec_plan_membership;
pub use planner::plan;
pub use planner::spec_fetch_delta;
pub use planner::spec_plan;

pub use bridge::bridge_step;
pub use bridge::bridge_run;
pub use bridge::bridge_terminal;
pub use bridge::bridge_transition;
pub use bridge::community_filter;
pub use bridge::filter_fetched;
pub use bridge::lemma_one_pump_per_signal;
pub use bridge::lemma_terminal_entered_from_fetching;
pub use bridge::lemma_terminal_state_is_final;
pub use bridge::lemma_worker_timeout;
pub use bridge::spec_keep_community;
pub use bridge::spec_worker_step;
pub use bridge::worker_poll_step;
pub use bridge::BridgeAction;
pub use bridge::BridgeEvent;
pub use bridge::BridgeState;
pub use bridge::FetchResponse;
pub use bridge::WorkerStep;
pub use bridge::FETCH_TIMEOUT_MS;
pub use bridge::POLL_INTERVAL_MS;
pub use bridge::PUMP_QUEUE_CAPACITY;

pub use cache::spec_snapshot_valid;
pub use cache::CacheLoadError;
pub use cache::CacheLookup;
pub use cache::CacheSnapshot;
pub use cache::snapshot_or_empty;
pub use cache::ITEM_CACHE_TTL_SECS;
pub use cache::PATH_CACHE_TTL_SECS;
pub use record::record_view_fn;
pub use record::string_view_fn;
pub use record::Classification;
pub use record::EnhancedWorkshopItem;
pub use record::EnhancedWorkshopItemModel;
pub use record::ItemRecord;
pub use record::ItemRecordModel;
