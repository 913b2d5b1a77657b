//! One whole poll cycle over a snapshot of the store: for each fetched
//! entity, load or create its record, evaluate the thresholds, and
//! collect the records to write back and the notifications to dispatch.
//! A fetch failure aborts the cycle before it touches anything.

use vstd::prelude::*;

use crate::record::{flag_set, fresh_record, AirdropsDatabase};
use crate::tracker::{evaluate, fired_notifications, updated_record, Decision, Notification};

verus! {

/// One trackable entity as the catalog fetch hands it over: the key,
/// the chain it lives on, and its claim deadline in epoch milliseconds.
pub struct Entity {
    pub contract_address: String,
    pub binance_chain_id: String,
    pub claim_end_time: u64,
}

/// Some record in the store carries this key.
pub open spec fn store_has_key(store: Seq<AirdropsDatabase>, key: Seq<char>) -> bool {
    exists|i: int| 0 <= i < store.len() && store[i].contract_address@ == key
}

/// The position of the record that carries this key (meaningful only
/// when the store has the key and keys are unique).
pub open spec fn key_index(store: Seq<AirdropsDatabase>, key: Seq<char>) -> int {
    choose|i: int| 0 <= i < store.len() && store[i].contract_address@ == key
}

/// No two records in the store share a key: each entity is tracked by
/// at most one record.
pub open spec fn unique_keys(store: Seq<AirdropsDatabase>) -> bool {
    forall|i: int, j: int|
        0 <= i < j < store.len() ==> store[i].contract_address@ != store[j].contract_address@
}

/// The record one cycle step works on: the stored one when the key is
/// known, else the one created for the first observation.
pub open spec fn step_base(store: Seq<AirdropsDatabase>, item: Entity) -> AirdropsDatabase {
    if store_has_key(store, item.contract_address@) {
        store[key_index(store, item.contract_address@)]
    } else {
        fresh_record(item.contract_address, item.binance_chain_id, item.claim_end_time)
    }
}

/// The store after one entity's step: its record — created on first
/// observation — with every newly crossed threshold marked fired.
pub open spec fn step_store(store: Seq<AirdropsDatabase>, item: Entity, now: u64) -> Seq<
    AirdropsDatabase,
> {
    if store_has_key(store, item.contract_address@) {
        store.update(
            key_index(store, item.contract_address@),
            updated_record(step_base(store, item), now),
        )
    } else {
        store.push(updated_record(step_base(store, item), now))
    }
}

/// The notifications one entity's step dispatches.
pub open spec fn step_notifications(store: Seq<AirdropsDatabase>, item: Entity, now: u64) -> Seq<
    Notification,
> {
    fired_notifications(step_base(store, item), now)
}

/// The store after a cycle has processed the entities in order.
pub open spec fn cycle_store(
    store: Seq<AirdropsDatabase>,
    items: Seq<Entity>,
    now: u64,
) -> Seq<AirdropsDatabase>
    decreases items.len(),
{
    if items.len() == 0 {
        store
    } else {
        cycle_store(step_store(store, items[0], now), items.drop_first(), now)
    }
}

/// The notifications a cycle dispatches, in processing order.
pub open spec fn cycle_notifications(
    store: Seq<AirdropsDatabase>,
    items: Seq<Entity>,
    now: u64,
) -> Seq<Notification>
    decreases items.len(),
{
    if items.len() == 0 {
        Seq::<Notification>::empty()
    } else {
        step_notifications(store, items[0], now) + cycle_notifications(
            step_store(store, items[0], now),
            items.drop_first(),
            now,
        )
    }
}

/// A record that a cycle starts with is still there, in place, when the
/// cycle ends: its key, chain and deadline are exactly what they were —
/// a deadline is never refreshed from a later snapshot — and a reminder
/// flag that was set is never observed clear again.
pub proof fn lemma_cycle_monotonic(
    store: Seq<AirdropsDatabase>,
    items: Seq<Entity>,
    now: u64,
    i: int,
)
    requires
        0 <= i < store.len(),
    ensures
        cycle_store(store, items, now).len() >= store.len(),
        cycle_store(store, items, now)[i].contract_address == store[i].contract_address,
        cycle_store(store, items, now)[i].binance_chain_id == store[i].binance_chain_id,
        cycle_store(store, items, now)[i].claim_end_time == store[i].claim_end_time,
        flag_set(store[i].ten_minute_reminder) ==> flag_set(
            cycle_store(store, items, now)[i].ten_minute_reminder,
        ),
        flag_set(store[i].five_minute_reminder) ==> flag_set(
            cycle_store(store, items, now)[i].five_minute_reminder,
        ),
        flag_set(store[i].one_minute_reminder) ==> flag_set(
            cycle_store(store, items, now)[i].one_minute_reminder,
        ),
    decreases items.len(),
{
    if items.len() > 0 {
        let s1 = step_store(store, items[0], now);
        assert(s1.len() >= store.len());
        assert(s1[i].contract_address == store[i].contract_address);
        assert(s1[i].binance_chain_id == store[i].binance_chain_id);
        assert(s1[i].claim_end_time == store[i].claim_end_time);
        lemma_cycle_monotonic(s1, items.drop_first(), now, i);
    }
}

/// What one cycle left behind: the store to write back, the
/// notifications to dispatch, and the fetch error when the cycle was
/// aborted before doing anything.
pub struct CycleOutcome {
    pub store: Vec<AirdropsDatabase>,
    pub notifications: Vec<Notification>,
    pub fetch_error: Option<String>,
}

/// Find the record that carries this key, if any.
fn find_record(store: &Vec<AirdropsDatabase>, key: &String) -> (r: Option<usize>)
    ensures
        match r {
            Some(i) => i < store@.len() && store@[i as int].contract_address@ == key@,
            None => !store_has_key(store@, key@),
        },
{
    let mut i: usize = 0;
    while i < store.len()
        invariant
            i <= store@.len(),
            forall|j: int| 0 <= j < i ==> store@[j].contract_address@ != key@,
        decreases store@.len() - i,
    {
        if store[i].contract_address == *key {
            return Some(i);
        }
        i = i + 1;
    }
    None
}

/// A matching position pins down `key_index` when keys are unique.
proof fn lemma_key_index_agrees(store: Seq<AirdropsDatabase>, key: Seq<char>, idx: int)
    requires
        unique_keys(store),
        0 <= idx < store.len(),
        store[idx].contract_address@ == key,
    ensures
        store_has_key(store, key),
        key_index(store, key) == idx,
{
    assert(store_has_key(store, key));
    let k = key_index(store, key);
    assert(0 <= k < store.len() && store[k].contract_address@ == key);
    if k < idx {
        assert(store[k].contract_address@ != store[idx].contract_address@);
    }
    if idx < k {
        assert(store[idx].contract_address@ != store[k].contract_address@);
    }
}

/// Run one poll cycle against a snapshot of the store. A failed fetch
/// aborts the cycle: the store comes back untouched, nothing is
/// dispatched, and the error is reported. A successful fetch processes
/// every entity in order; keys stay unique, so each entity's record is
/// created at most once.
pub fn run_cycle(fetch: Result<Vec<Entity>, String>, store: Vec<AirdropsDatabase>, now: u64) -> (o:
    CycleOutcome)
    requires
        unique_keys(store@),
    ensures
        unique_keys(o.store@),
        match fetch {
            Err(e) => o.store == store && o.notifications@.len() == 0 && o.fetch_error == Some(e),
            Ok(items) => o.store@ == cycle_store(store@, items@, now) && o.notifications@
                == cycle_notifications(store@, items@, now) && o.fetch_error is None,
        },
{
    match fetch {
        Err(e) => CycleOutcome { store, notifications: Vec::new(), fetch_error: Some(e) },
        Ok(items) => {
            let ghost store0 = store@;
            let mut store = store;
            let mut notifications: Vec<Notification> = Vec::new();
            let mut i: usize = 0;
            proof {
                assert(items@.skip(0) =~= items@);
                assert(Seq::<Notification>::empty() + cycle_notifications(store0, items@, now)
                    =~= cycle_notifications(store0, items@, now));
            }
            while i < items.len()
                invariant
                    i <= items@.len(),
                    unique_keys(store@),
                    cycle_store(store0, items@, now) == cycle_store(
                        store@,
                        items@.skip(i as int),
                        now,
                    ),
                    cycle_notifications(store0, items@, now) == notifications@
                        + cycle_notifications(store@, items@.skip(i as int), now),
                decreases items@.len() - i,
            {
                let ghost pre_store = store@;
                let ghost pre_notifs = notifications@;
                let ghost rest = items@.skip(i as int);
                let item = &items[i];
                let found = find_record(&store, &item.contract_address);
                match found {
                    Some(idx) => {
                        proof {
                            lemma_key_index_agrees(
                                store@,
                                item.contract_address@,
                                idx as int,
                            );
                        }
                        let decision = evaluate(&store[idx], now);
                        let Decision { record: new_record, dirty, notifications: mut fired } =
                            decision;
                        if dirty {
                            store[idx] = new_record;
                        } else {
                            proof {
                                assert(updated_record(pre_store[idx as int], now)
                                    == pre_store[idx as int]);
                                assert(pre_store.update(
                                    idx as int,
                                    updated_record(pre_store[idx as int], now),
                                ) =~= pre_store);
                            }
                        }
                        notifications.append(&mut fired);
                        proof {
                            assert forall|a: int, b: int|
                                0 <= a < b < store@.len() implies store@[a].contract_address@
                                != store@[b].contract_address@ by {
                                assert(store@[a].contract_address@
                                    == pre_store[a].contract_address@);
                                assert(store@[b].contract_address@
                                    == pre_store[b].contract_address@);
                            }
                        }
                    },
                    None => {
                        let fresh = AirdropsDatabase::new(
                            item.contract_address.clone(),
                            item.binance_chain_id.clone(),
                            item.claim_end_time,
                        );
                        let decision = evaluate(&fresh, now);
                        let Decision { record: new_record, dirty: _, notifications: mut fired } =
                            decision;
                        store.push(new_record);
                        notifications.append(&mut fired);
                        proof {
                            assert forall|a: int, b: int|
                                0 <= a < b < store@.len() implies store@[a].contract_address@
                                != store@[b].contract_address@ by {
                                if b < store@.len() - 1 {
                                    assert(store@[a].contract_address@
                                        != store@[b].contract_address@);
                                } else {
                                    assert(store@[b].contract_address@
                                        == item.contract_address@);
                                    if pre_store[a].contract_address@ == item.contract_address@ {
                                        assert(store_has_key(pre_store, item.contract_address@));
                                    }
                                }
                            }
                        }
                    },
                }
                proof {
                    assert(store@ == step_store(pre_store, items@[i as int], now));
                    assert(notifications@ == pre_notifs + step_notifications(
                        pre_store,
                        items@[i as int],
                        now,
                    ));
                    assert(rest.len() > 0);
                    assert(rest[0] == items@[i as int]);
                    assert(rest.drop_first() =~= items@.skip(i as int + 1));
                    assert(cycle_store(pre_store, rest, now) == cycle_store(
                        store@,
                        items@.skip(i as int + 1),
                        now,
                    ));
                    assert(pre_notifs + cycle_notifications(pre_store, rest, now) =~= notifications@
                        + cycle_notifications(store@, items@.skip(i as int + 1), now));
                }
                i = i + 1;
            }
            proof {
                assert(items@.skip(items@.len() as int).len() == 0);
                assert(notifications@ + Seq::<Notification>::empty() =~= notifications@);
            }
            CycleOutcome { store, notifications, fetch_error: None }
        },
    }
}

} // verus!
