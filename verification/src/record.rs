//! The tracking record persisted per entity: which reminder thresholds
//! have already fired for it, and the deadline captured when the entity
//! was first observed.

use vstd::prelude::*;

verus! {

/// One persisted tracking record. The three reminder fields are stored as
/// integers (`0` = not yet fired, `1` = fired), mirroring the columns of
/// the backing table; any nonzero value counts as fired.
pub struct AirdropsDatabase {
    /// Primary key: the entity's contract address. Immutable once created.
    pub contract_address: String,
    /// Chain identifier, copied at creation.
    pub binance_chain_id: String,
    /// Claim deadline in epoch milliseconds, fixed at first observation.
    pub claim_end_time: u64,
    /// Whether the 10-minute reminder has fired.
    pub ten_minute_reminder: u64,
    /// Whether the 5-minute reminder has fired.
    pub five_minute_reminder: u64,
    /// Whether the 1-minute reminder has fired.
    pub one_minute_reminder: u64,
}

/// A reminder field counts as fired exactly when it is nonzero.
pub open spec fn flag_set(f: u64) -> bool {
    f != 0
}

/// The record created when a key is observed for the first time: all
/// reminders clear, identity and deadline copied from the entity.
pub open spec fn fresh_record(
    contract_address: String,
    binance_chain_id: String,
    claim_end_time: u64,
) -> AirdropsDatabase {
    AirdropsDatabase {
        contract_address,
        binance_chain_id,
        claim_end_time,
        ten_minute_reminder: 0,
        five_minute_reminder: 0,
        one_minute_reminder: 0,
    }
}

impl AirdropsDatabase {
    /// A fresh record: no reminder has fired yet.
    pub open spec fn is_fresh(self) -> bool {
        &&& self.ten_minute_reminder == 0
        &&& self.five_minute_reminder == 0
        &&& self.one_minute_reminder == 0
    }

    /// Create the record for an entity seen for the first time: all
    /// reminder flags clear, deadline taken from the entity snapshot.
    pub fn new(contract_address: String, binance_chain_id: String, claim_end_time: u64) -> (r:
        Self)
        ensures
            r == fresh_record(contract_address, binance_chain_id, claim_end_time),
            r.is_fresh(),
    {
        AirdropsDatabase {
            contract_address,
            binance_chain_id,
            claim_end_time,
            ten_minute_reminder: 0,
            five_minute_reminder: 0,
            one_minute_reminder: 0,
        }
    }
}

} // verus!
