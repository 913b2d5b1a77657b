use adb::{
    evaluate, load_or_create, process_entity, run_cycle, AirdropsDatabase, Entity, Threshold,
    FIVE_MINUTES_MS, ONE_MINUTE_MS, TEN_MINUTES_MS,
};

const NOW: u64 = 1_700_000_000_000;

fn entity(key: &str, claim_end_time: u64) -> Entity {
    Entity {
        contract_address: key.to_string(),
        binance_chain_id: "56".to_string(),
        claim_end_time,
    }
}

fn fresh(key: &str, claim_end_time: u64) -> AirdropsDatabase {
    AirdropsDatabase::new(key.to_string(), "56".to_string(), claim_end_time)
}

#[test]
fn creation_at_nine_minutes_fires_ten_only() {
    // Entity first seen with nine minutes left: record created, the
    // 10-minute reminder fires, the others stay clear.
    let end = NOW + 9 * ONE_MINUTE_MS;
    let o = process_entity(None, "0xE1".to_string(), "56".to_string(), end, NOW);
    assert!(o.created);
    assert!(o.dirty);
    assert_eq!(o.record.claim_end_time, end);
    assert_eq!(o.record.ten_minute_reminder, 1);
    assert_eq!(o.record.five_minute_reminder, 0);
    assert_eq!(o.record.one_minute_reminder, 0);
    assert_eq!(o.notifications.len(), 1);
    assert_eq!(o.notifications[0].threshold, Threshold::TenMinutes);
    assert_eq!(o.notifications[0].contract_address, "0xE1");
}

#[test]
fn second_poll_in_same_window_fires_nothing() {
    // Half a minute after the 10-minute reminder fired, still inside the
    // 10-minute window: nothing fires again.
    let end = NOW + 9 * ONE_MINUTE_MS;
    let first = process_entity(None, "0xE1".to_string(), "56".to_string(), end, NOW);
    let second = process_entity(
        Some(first.record),
        "0xE1".to_string(),
        "56".to_string(),
        end,
        NOW + 30_000,
    );
    assert!(!second.created);
    assert!(!second.dirty);
    assert_eq!(second.notifications.len(), 0);
    assert_eq!(second.record.ten_minute_reminder, 1);
    assert_eq!(second.record.five_minute_reminder, 0);
}

#[test]
fn expired_entity_still_creates_a_silent_record() {
    // Deadline already passed on first observation: the record is still
    // created, but no flag is set and nothing is dispatched.
    let end = NOW - ONE_MINUTE_MS;
    let o = process_entity(None, "0xE2".to_string(), "56".to_string(), end, NOW);
    assert!(o.created);
    assert!(!o.dirty);
    assert_eq!(o.notifications.len(), 0);
    assert_eq!(o.record.ten_minute_reminder, 0);
    assert_eq!(o.record.five_minute_reminder, 0);
    assert_eq!(o.record.one_minute_reminder, 0);
}

#[test]
fn failed_fetch_aborts_the_cycle_untouched() {
    // A fetch failure leaves every record as it was and dispatches
    // nothing; the cycle reports the error instead of crashing.
    let store = vec![fresh("0xE1", NOW + 2 * ONE_MINUTE_MS)];
    let o = run_cycle(Err("connection reset".to_string()), store, NOW);
    assert_eq!(o.fetch_error.as_deref(), Some("connection reset"));
    assert_eq!(o.notifications.len(), 0);
    assert_eq!(o.store.len(), 1);
    assert_eq!(o.store[0].contract_address, "0xE1");
    assert_eq!(o.store[0].ten_minute_reminder, 0);
    assert_eq!(o.store[0].five_minute_reminder, 0);
    assert_eq!(o.store[0].one_minute_reminder, 0);
}

#[test]
fn fired_flags_stay_fired() {
    // Monotonicity on concrete values: an already-fired flag is still
    // set after any later evaluation.
    let mut r = fresh("0xE1", NOW + 4 * ONE_MINUTE_MS);
    r.ten_minute_reminder = 1;
    let d = evaluate(&r, NOW);
    assert_eq!(d.record.ten_minute_reminder, 1);
    let d2 = evaluate(&d.record, NOW + 3 * ONE_MINUTE_MS);
    assert_eq!(d2.record.ten_minute_reminder, 1);
    assert_eq!(d2.record.five_minute_reminder, 1);
}

#[test]
fn no_firing_above_the_window() {
    // Just over ten minutes left: no reminder fires.
    let r = fresh("0xE1", NOW + TEN_MINUTES_MS + 1);
    let d = evaluate(&r, NOW);
    assert!(!d.dirty);
    assert_eq!(d.notifications.len(), 0);
}

#[test]
fn firing_exactly_at_the_boundary() {
    // Exactly ten minutes left counts as within the window.
    let r = fresh("0xE1", NOW + TEN_MINUTES_MS);
    let d = evaluate(&r, NOW);
    assert!(d.dirty);
    assert_eq!(d.notifications.len(), 1);
    assert_eq!(d.notifications[0].threshold, Threshold::TenMinutes);
}

#[test]
fn ascending_order_when_all_cross_at_once() {
    // A fresh record observed with a minute left fires all three
    // reminders in one cycle, 10 minutes first, then 5, then 1.
    let r = fresh("0xE1", NOW + ONE_MINUTE_MS);
    let d = evaluate(&r, NOW);
    assert!(d.dirty);
    assert_eq!(d.notifications.len(), 3);
    assert_eq!(d.notifications[0].threshold, Threshold::TenMinutes);
    assert_eq!(d.notifications[1].threshold, Threshold::FiveMinutes);
    assert_eq!(d.notifications[2].threshold, Threshold::OneMinute);
    assert_eq!(d.record.ten_minute_reminder, 1);
    assert_eq!(d.record.five_minute_reminder, 1);
    assert_eq!(d.record.one_minute_reminder, 1);
}

#[test]
fn crossed_threshold_never_refires() {
    // Once persisted as fired, a repeated poll with the same data
    // dispatches nothing.
    let r = fresh("0xE1", NOW + FIVE_MINUTES_MS);
    let d = evaluate(&r, NOW);
    assert_eq!(d.notifications.len(), 2);
    let again = evaluate(&d.record, NOW);
    assert!(!again.dirty);
    assert_eq!(again.notifications.len(), 0);
}

#[test]
fn load_or_create_loads_without_refreshing() {
    // The second load finds the persisted record and keeps its deadline
    // even when the snapshot reports another one.
    let (created, was_created) =
        load_or_create(None, "0xE1".to_string(), "56".to_string(), NOW + TEN_MINUTES_MS);
    assert!(was_created);
    let (loaded, created_again) = load_or_create(
        Some(created),
        "0xE1".to_string(),
        "56".to_string(),
        NOW + 2 * TEN_MINUTES_MS,
    );
    assert!(!created_again);
    assert_eq!(loaded.claim_end_time, NOW + TEN_MINUTES_MS);
    assert_eq!(loaded.contract_address, "0xE1");
    assert_eq!(loaded.binance_chain_id, "56");
}

#[test]
fn deadline_skip_leaves_flags_alone() {
    // Past the deadline nothing is read or changed, whatever the flags.
    let mut r = fresh("0xE1", NOW - 1);
    r.five_minute_reminder = 1;
    let d = evaluate(&r, NOW);
    assert!(!d.dirty);
    assert_eq!(d.notifications.len(), 0);
    assert_eq!(d.record.ten_minute_reminder, 0);
    assert_eq!(d.record.five_minute_reminder, 1);
    assert_eq!(d.record.one_minute_reminder, 0);
}

#[test]
fn far_future_deadline_fires_nothing() {
    let r = fresh("0xE1", u64::MAX);
    let d = evaluate(&r, NOW);
    assert!(!d.dirty);
    assert_eq!(d.notifications.len(), 0);
}

#[test]
fn cycle_processes_entities_in_order() {
    // One known entity four minutes from its deadline and one new
    // entity thirty seconds from its own: the first catches up on the
    // 10- and 5-minute reminders, the second fires all three.
    let store = vec![fresh("0xE1", NOW + 4 * ONE_MINUTE_MS)];
    let items = vec![
        entity("0xE1", NOW + 4 * ONE_MINUTE_MS),
        entity("0xE2", NOW + 30_000),
    ];
    let o = run_cycle(Ok(items), store, NOW);
    assert!(o.fetch_error.is_none());
    assert_eq!(o.store.len(), 2);
    assert_eq!(o.store[0].contract_address, "0xE1");
    assert_eq!(o.store[0].ten_minute_reminder, 1);
    assert_eq!(o.store[0].five_minute_reminder, 1);
    assert_eq!(o.store[0].one_minute_reminder, 0);
    assert_eq!(o.store[1].contract_address, "0xE2");
    assert_eq!(o.store[1].ten_minute_reminder, 1);
    assert_eq!(o.store[1].five_minute_reminder, 1);
    assert_eq!(o.store[1].one_minute_reminder, 1);
    let kinds: Vec<(String, Threshold)> = o
        .notifications
        .iter()
        .map(|n| (n.contract_address.clone(), n.threshold))
        .collect();
    assert_eq!(
        kinds,
        vec![
            ("0xE1".to_string(), Threshold::TenMinutes),
            ("0xE1".to_string(), Threshold::FiveMinutes),
            ("0xE2".to_string(), Threshold::TenMinutes),
            ("0xE2".to_string(), Threshold::FiveMinutes),
            ("0xE2".to_string(), Threshold::OneMinute),
        ]
    );
}

#[test]
fn duplicate_entity_in_one_cycle_creates_one_record() {
    // The same key twice in one snapshot: the second occurrence loads
    // the record the first one created, and nothing fires twice.
    let items = vec![
        entity("0xE3", NOW + 2 * ONE_MINUTE_MS),
        entity("0xE3", NOW + 2 * ONE_MINUTE_MS),
    ];
    let o = run_cycle(Ok(items), Vec::new(), NOW);
    assert_eq!(o.store.len(), 1);
    assert_eq!(o.store[0].contract_address, "0xE3");
    assert_eq!(o.notifications.len(), 2);
    assert_eq!(o.notifications[0].threshold, Threshold::TenMinutes);
    assert_eq!(o.notifications[1].threshold, Threshold::FiveMinutes);
}

#[test]
fn empty_snapshot_is_a_quiet_cycle() {
    let store = vec![fresh("0xE1", NOW + ONE_MINUTE_MS)];
    let o = run_cycle(Ok(Vec::new()), store, NOW);
    assert!(o.fetch_error.is_none());
    assert_eq!(o.notifications.len(), 0);
    assert_eq!(o.store.len(), 1);
    assert_eq!(o.store[0].ten_minute_reminder, 0);
}

#[test]
fn deadline_instant_still_fires() {
    // Zero remaining time is still within every window.
    let r = fresh("0xE1", NOW);
    let d = evaluate(&r, NOW);
    assert_eq!(d.notifications.len(), 3);
    assert_eq!(d.record.one_minute_reminder, 1);
}

#[test]
fn partially_fired_record_catches_up_once() {
    // Ten and five already fired: only the one-minute reminder is new.
    let mut r = fresh("0xE1", NOW + 30_000);
    r.ten_minute_reminder = 1;
    r.five_minute_reminder = 1;
    let d = evaluate(&r, NOW);
    assert!(d.dirty);
    assert_eq!(d.notifications.len(), 1);
    assert_eq!(d.notifications[0].threshold, Threshold::OneMinute);
    assert_eq!(d.record.ten_minute_reminder, 1);
    assert_eq!(d.record.five_minute_reminder, 1);
    assert_eq!(d.record.one_minute_reminder, 1);
}

#[test]
fn subjects_name_each_threshold() {
    assert_eq!(
        Threshold::TenMinutes.subject(),
        "Binance Airdrop 10 Minutes Reminder"
    );
    assert_eq!(
        Threshold::FiveMinutes.subject(),
        "Binance Airdrop 5 Minutes Reminder"
    );
    assert_eq!(
        Threshold::OneMinute.subject(),
        "Binance Airdrop 1 Minutes Reminder"
    );
}
