//! Reminder tracking for time-boxed airdrop events.
//!
//! The library is the decision core of a periodic monitor: given the state
//! persisted for an entity and the time observed at the start of a poll
//! cycle, it decides which reminder thresholds (10, 5 and 1 minutes before
//! the claim deadline) have newly been crossed, which notifications to
//! dispatch, and what to write back to the store. All I/O — fetching the
//! catalog, the store itself, and the notification transport — lives
//! outside the library and hands it plain values.

mod config;
mod cycle;
mod record;
mod tracker;

pub use config::Config;
pub use config::Email;
pub use cycle::cycle_notifications;
pub use cycle::cycle_store;
pub use cycle::key_index;
pub use cycle::lemma_cycle_monotonic;
pub use cycle::run_cycle;
pub use cycle::step_base;
pub use cycle::step_notifications;
pub use cycle::step_store;
pub use cycle::store_has_key;
pub use cycle::unique_keys;
pub use cycle::CycleOutcome;
pub use cycle::Entity;
pub use record::flag_set;
pub use record::fresh_record;
pub use record::AirdropsDatabase;
pub use tracker::evaluate;
pub use tracker::lemma_ascending_firing;
pub use tracker::lemma_deadline_skip;
pub use tracker::lemma_flags_monotonic;
pub use tracker::lemma_idempotent_creation;
pub use tracker::lemma_no_premature_firing;
pub use tracker::lemma_no_refire;
pub use tracker::fired_notifications;
pub use tracker::five_minute_fires;
pub use tracker::load_or_create;
pub use tracker::loaded_record;
pub use tracker::one_minute_fires;
pub use tracker::process_entity;
pub use tracker::record_dirty;
pub use tracker::ten_minute_fires;
pub use tracker::updated_record;
pub use tracker::within_threshold;
pub use tracker::Decision;
pub use tracker::EntityOutcome;
pub use tracker::Notification;
pub use tracker::Threshold;
pub use tracker::FIVE_MINUTES_MS;
pub use tracker::ONE_MINUTE_MS;
pub use tracker::TEN_MINUTES_MS;
