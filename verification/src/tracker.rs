//! The reminder state machine: given a tracking record and the time
//! observed at the start of a poll cycle, decide which reminder
//! thresholds have newly been crossed, in ascending order (10 minutes
//! first, then 5, then 1), and what the record must look like afterwards.

use vstd::prelude::*;

use crate::record::{flag_set, fresh_record, AirdropsDatabase};

verus! {

/// Milliseconds in ten minutes, the earliest reminder threshold.
pub const TEN_MINUTES_MS: u64 = 10 * 60 * 1000;

/// Milliseconds in five minutes, the middle reminder threshold.
pub const FIVE_MINUTES_MS: u64 = 5 * 60 * 1000;

/// Milliseconds in one minute, the last reminder threshold.
pub const ONE_MINUTE_MS: u64 = 1 * 60 * 1000;

/// The three reminder thresholds, one per notification kind.
#[derive(Clone, Copy, PartialEq, Eq, Structural, Debug)]
pub enum Threshold {
    TenMinutes,
    FiveMinutes,
    OneMinute,
}

impl Threshold {
    /// The subject line of this threshold's reminder notification.
    pub fn subject(&self) -> (s: &'static str)
        ensures
            *self == Threshold::TenMinutes ==> s@ == "Binance Airdrop 10 Minutes Reminder"@,
            *self == Threshold::FiveMinutes ==> s@ == "Binance Airdrop 5 Minutes Reminder"@,
            *self == Threshold::OneMinute ==> s@ == "Binance Airdrop 1 Minutes Reminder"@,
    {
        match self {
            Threshold::TenMinutes => "Binance Airdrop 10 Minutes Reminder",
            Threshold::FiveMinutes => "Binance Airdrop 5 Minutes Reminder",
            Threshold::OneMinute => "Binance Airdrop 1 Minutes Reminder",
        }
    }
}

/// One notification request: which entity, and which threshold fired.
pub struct Notification {
    pub contract_address: String,
    pub threshold: Threshold,
}

/// The deadline has not passed and no more than `threshold_ms` of
/// remaining time is left at `now`.
pub open spec fn within_threshold(claim_end_time: u64, now: u64, threshold_ms: u64) -> bool {
    now <= claim_end_time && claim_end_time - now <= threshold_ms
}

/// The 10-minute reminder newly fires for `r` at `now`.
pub open spec fn ten_minute_fires(r: AirdropsDatabase, now: u64) -> bool {
    within_threshold(r.claim_end_time, now, TEN_MINUTES_MS) && !flag_set(r.ten_minute_reminder)
}

/// The 5-minute reminder newly fires for `r` at `now`.
pub open spec fn five_minute_fires(r: AirdropsDatabase, now: u64) -> bool {
    within_threshold(r.claim_end_time, now, FIVE_MINUTES_MS) && !flag_set(r.five_minute_reminder)
}

/// The 1-minute reminder newly fires for `r` at `now`.
pub open spec fn one_minute_fires(r: AirdropsDatabase, now: u64) -> bool {
    within_threshold(r.claim_end_time, now, ONE_MINUTE_MS) && !flag_set(r.one_minute_reminder)
}

/// Any reminder newly fires, so the record must be written back.
pub open spec fn record_dirty(r: AirdropsDatabase, now: u64) -> bool {
    ten_minute_fires(r, now) || five_minute_fires(r, now) || one_minute_fires(r, now)
}

/// The record after one evaluation at `now`: every reminder that newly
/// fires is marked fired; identity, deadline and already-fired reminders
/// are untouched.
pub open spec fn updated_record(r: AirdropsDatabase, now: u64) -> AirdropsDatabase {
    AirdropsDatabase {
        contract_address: r.contract_address,
        binance_chain_id: r.binance_chain_id,
        claim_end_time: r.claim_end_time,
        ten_minute_reminder: if ten_minute_fires(r, now) {
            1u64
        } else {
            r.ten_minute_reminder
        },
        five_minute_reminder: if five_minute_fires(r, now) {
            1u64
        } else {
            r.five_minute_reminder
        },
        one_minute_reminder: if one_minute_fires(r, now) {
            1u64
        } else {
            r.one_minute_reminder
        },
    }
}

/// The notifications dispatched for `r` at `now`, in ascending threshold
/// order: 10 minutes, then 5, then 1.
pub open spec fn fired_notifications(r: AirdropsDatabase, now: u64) -> Seq<Notification> {
    (if ten_minute_fires(r, now) {
        seq![(Notification { contract_address: r.contract_address, threshold: Threshold::TenMinutes })]
    } else {
        Seq::<Notification>::empty()
    }) + (if five_minute_fires(r, now) {
        seq![(Notification { contract_address: r.contract_address, threshold: Threshold::FiveMinutes })]
    } else {
        Seq::<Notification>::empty()
    }) + (if one_minute_fires(r, now) {
        seq![(Notification { contract_address: r.contract_address, threshold: Threshold::OneMinute })]
    } else {
        Seq::<Notification>::empty()
    })
}

/// What one evaluation decided: the record to persist (when `dirty`),
/// and the notifications to dispatch, in ascending threshold order.
pub struct Decision {
    pub record: AirdropsDatabase,
    pub dirty: bool,
    pub notifications: Vec<Notification>,
}

/// Evaluate one record at `now`. If the deadline has passed nothing
/// fires and nothing changes; otherwise every threshold whose remaining
/// time has been reached and whose reminder has not yet fired is marked
/// fired, with one notification each, in ascending order.
pub fn evaluate(record: &AirdropsDatabase, now: u64) -> (d: Decision)
    ensures
        d.record == updated_record(*record, now),
        d.dirty == record_dirty(*record, now),
        d.notifications@ == fired_notifications(*record, now),
{
    let mut rec = AirdropsDatabase {
        contract_address: record.contract_address.clone(),
        binance_chain_id: record.binance_chain_id.clone(),
        claim_end_time: record.claim_end_time,
        ten_minute_reminder: record.ten_minute_reminder,
        five_minute_reminder: record.five_minute_reminder,
        one_minute_reminder: record.one_minute_reminder,
    };
    let mut notifications: Vec<Notification> = Vec::new();
    let mut dirty = false;
    if now > rec.claim_end_time {
        assert(notifications@ =~= fired_notifications(*record, now));
        return Decision { record: rec, dirty, notifications };
    }
    let remaining = rec.claim_end_time - now;
    if remaining <= TEN_MINUTES_MS && rec.ten_minute_reminder == 0 {
        rec.ten_minute_reminder = 1;
        dirty = true;
        notifications.push(
            Notification {
                contract_address: record.contract_address.clone(),
                threshold: Threshold::TenMinutes,
            },
        );
    }
    if remaining <= FIVE_MINUTES_MS && rec.five_minute_reminder == 0 {
        rec.five_minute_reminder = 1;
        dirty = true;
        notifications.push(
            Notification {
                contract_address: record.contract_address.clone(),
                threshold: Threshold::FiveMinutes,
            },
        );
    }
    if remaining <= ONE_MINUTE_MS && rec.one_minute_reminder == 0 {
        rec.one_minute_reminder = 1;
        dirty = true;
        notifications.push(
            Notification {
                contract_address: record.contract_address.clone(),
                threshold: Threshold::OneMinute,
            },
        );
    }
    assert(notifications@ =~= fired_notifications(*record, now));
    Decision { record: rec, dirty, notifications }
}

/// The record the cycle works on: the existing one when the store has
/// one for the key, else the freshly created one, with a flag saying
/// that a creation took place.
pub open spec fn loaded_record(existing: Option<AirdropsDatabase>, fresh: AirdropsDatabase) -> (
    AirdropsDatabase,
    bool,
) {
    match existing {
        Some(r) => (r, false),
        None => (fresh, true),
    }
}

/// Load the record for a key, or create it on first observation: all
/// reminders clear, deadline copied from the entity snapshot. An
/// existing record is returned unchanged — in particular its deadline is
/// never refreshed from a later snapshot.
pub fn load_or_create(
    existing: Option<AirdropsDatabase>,
    contract_address: String,
    binance_chain_id: String,
    claim_end_time: u64,
) -> (r: (AirdropsDatabase, bool))
    ensures
        r == loaded_record(
            existing,
            fresh_record(contract_address, binance_chain_id, claim_end_time),
        ),
        r.1 == (existing is None),
{
    match existing {
        Some(record) => (record, false),
        None => (AirdropsDatabase::new(contract_address, binance_chain_id, claim_end_time), true),
    }
}

/// Everything one poll step decided for one entity: whether a record was
/// created (and must be persisted at once), the record after threshold
/// evaluation (to persist when `dirty`), and the notifications to
/// dispatch, in ascending threshold order.
pub struct EntityOutcome {
    pub created: bool,
    pub record: AirdropsDatabase,
    pub dirty: bool,
    pub notifications: Vec<Notification>,
}

/// The whole per-entity poll step: load or create the record for the
/// key, then evaluate it at `now`.
pub fn process_entity(
    existing: Option<AirdropsDatabase>,
    contract_address: String,
    binance_chain_id: String,
    claim_end_time: u64,
    now: u64,
) -> (o: EntityOutcome)
    ensures
        ({
            let base = loaded_record(
                existing,
                fresh_record(contract_address, binance_chain_id, claim_end_time),
            ).0;
            &&& o.created == (existing is None)
            &&& o.record == updated_record(base, now)
            &&& o.dirty == record_dirty(base, now)
            &&& o.notifications@ == fired_notifications(base, now)
        }),
{
    let (record, created) = load_or_create(
        existing,
        contract_address,
        binance_chain_id,
        claim_end_time,
    );
    let decision = evaluate(&record, now);
    EntityOutcome {
        created,
        record: decision.record,
        dirty: decision.dirty,
        notifications: decision.notifications,
    }
}

/// Reminder flags are monotonic: a reminder that has fired is still
/// fired after any later evaluation, whatever time it observes.
pub proof fn lemma_flags_monotonic(r: AirdropsDatabase, now: u64)
    ensures
        flag_set(r.ten_minute_reminder) ==> flag_set(updated_record(r, now).ten_minute_reminder),
        flag_set(r.five_minute_reminder) ==> flag_set(updated_record(r, now).five_minute_reminder),
        flag_set(r.one_minute_reminder) ==> flag_set(updated_record(r, now).one_minute_reminder),
{
}

/// No premature firing: a notification for a threshold is dispatched
/// only while the remaining time is within that threshold (and the
/// deadline has not passed).
pub proof fn lemma_no_premature_firing(r: AirdropsDatabase, now: u64, i: int)
    requires
        0 <= i < fired_notifications(r, now).len(),
    ensures
        fired_notifications(r, now)[i].threshold == Threshold::TenMinutes ==> within_threshold(
            r.claim_end_time,
            now,
            TEN_MINUTES_MS,
        ),
        fired_notifications(r, now)[i].threshold == Threshold::FiveMinutes ==> within_threshold(
            r.claim_end_time,
            now,
            FIVE_MINUTES_MS,
        ),
        fired_notifications(r, now)[i].threshold == Threshold::OneMinute ==> within_threshold(
            r.claim_end_time,
            now,
            ONE_MINUTE_MS,
        ),
{
}

/// Ascending-order firing: a fresh record observed with no more than a
/// minute left fires all three reminders in one cycle, in the order
/// 10 minutes, 5 minutes, 1 minute.
pub proof fn lemma_ascending_firing(r: AirdropsDatabase, now: u64)
    requires
        r.is_fresh(),
        within_threshold(r.claim_end_time, now, ONE_MINUTE_MS),
    ensures
        fired_notifications(r, now) == seq![
            (Notification { contract_address: r.contract_address, threshold: Threshold::TenMinutes }),
            (Notification {
                contract_address: r.contract_address,
                threshold: Threshold::FiveMinutes,
            }),
            (Notification { contract_address: r.contract_address, threshold: Threshold::OneMinute }),
        ],
{
    assert(fired_notifications(r, now) =~= seq![
        (Notification { contract_address: r.contract_address, threshold: Threshold::TenMinutes }),
        (Notification { contract_address: r.contract_address, threshold: Threshold::FiveMinutes }),
        (Notification { contract_address: r.contract_address, threshold: Threshold::OneMinute }),
    ]);
}

/// At least once, never twice: a threshold that fired in one evaluation
/// never fires again from the persisted record, at any later (or equal)
/// observation; and re-evaluating the persisted record with the same
/// data dispatches nothing at all.
pub proof fn lemma_no_refire(r: AirdropsDatabase, now: u64, later: u64)
    ensures
        ten_minute_fires(r, now) ==> !ten_minute_fires(updated_record(r, now), later),
        five_minute_fires(r, now) ==> !five_minute_fires(updated_record(r, now), later),
        one_minute_fires(r, now) ==> !one_minute_fires(updated_record(r, now), later),
        fired_notifications(updated_record(r, now), now).len() == 0,
{
}

/// Idempotent creation: the first cycle to see a key creates its record;
/// a second cycle with the same snapshot finds the persisted record and
/// loads it unchanged instead of creating another.
pub proof fn lemma_idempotent_creation(
    contract_address: String,
    binance_chain_id: String,
    claim_end_time: u64,
    now: u64,
)
    ensures
        ({
            let fresh = fresh_record(contract_address, binance_chain_id, claim_end_time);
            let first = loaded_record(None, fresh);
            let persisted = updated_record(first.0, now);
            let second = loaded_record(Some(persisted), fresh);
            &&& first.1 == true
            &&& second.1 == false
            &&& second.0 == persisted
        }),
{
}

/// Deadline skip: once the deadline has passed, an evaluation changes
/// nothing and dispatches nothing, whatever the flags hold.
pub proof fn lemma_deadline_skip(r: AirdropsDatabase, now: u64)
    requires
        r.claim_end_time < now,
    ensures
        updated_record(r, now) == r,
        !record_dirty(r, now),
        fired_notifications(r, now).len() == 0,
{
}

} // verus!
