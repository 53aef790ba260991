//! The deposit ledger: for each deposit key, the time of its last attempt.

use crate::time::Timestamp;
use std::collections::HashMap;
use vstd::prelude::*;

verus! {

broadcast use vstd::std_specs::hash::group_hash_axioms;

/// A deposit key: the deposit's id and its remaining count.
pub type DepositKey = (u32, u32);

/// The slot under which a key is stored: the id in the upper half, the
/// remaining count in the lower half.
spec fn slot_of(key: DepositKey) -> u64 {
    (key.0 as u64 * 0x1_0000_0000 + key.1 as u64) as u64
}

/// Distinct keys have distinct slots.
proof fn lemma_slot_injective(a: DepositKey, b: DepositKey)
    ensures
        slot_of(a) == slot_of(b) <==> a == b,
{
}

/// A map from deposit key to the time of the last attempt on it. Entries are
/// added and overwritten, never removed.
pub struct Ledger {
    stamps: HashMap<u64, u64>,
}

impl View for Ledger {
    type V = Map<DepositKey, Timestamp>;

    closed spec fn view(&self) -> Map<DepositKey, Timestamp> {
        Map::new(
            |key: DepositKey| self.stamps@.contains_key(slot_of(key)),
            |key: DepositKey| Timestamp { nanos: self.stamps@[slot_of(key)] },
        )
    }
}

impl Ledger {
    /// The ledger without entries.
    pub fn new() -> (ledger: Ledger)
        ensures
            ledger@ == Map::<DepositKey, Timestamp>::empty(),
    {
        let ledger = Ledger { stamps: HashMap::new() };
        assert(ledger@ =~= Map::<DepositKey, Timestamp>::empty());
        ledger
    }

    /// The stamp recorded for a key, if there is one.
    pub fn stamp_of(&self, deposit_id: u32, remaining_count: u32) -> (stamp: Option<Timestamp>)
        ensures
            stamp == (if self@.contains_key((deposit_id, remaining_count)) {
                Some(self@[(deposit_id, remaining_count)])
            } else {
                None
            }),
    {
        let slot: u64 = deposit_id as u64 * 0x1_0000_0000 + remaining_count as u64;
        assert(slot == slot_of((deposit_id, remaining_count)));
        match self.stamps.get(&slot) {
            Some(nanos) => Some(Timestamp { nanos: *nanos }),
            None => None,
        }
    }

    /// Records `at` as the stamp of a key, whether or not it had one.
    pub fn record(&mut self, deposit_id: u32, remaining_count: u32, at: Timestamp)
        ensures
            final(self)@ == old(self)@.insert((deposit_id, remaining_count), at),
    {
        let slot: u64 = deposit_id as u64 * 0x1_0000_0000 + remaining_count as u64;
        assert(slot == slot_of((deposit_id, remaining_count)));
        self.stamps.insert(slot, at.nanos);
        assert forall|key: DepositKey| slot_of(key) == slot implies key == (
            deposit_id,
            remaining_count,
        ) by {
            lemma_slot_injective(key, (deposit_id, remaining_count));
        }
        assert(self@ =~= old(self)@.insert((deposit_id, remaining_count), at));
    }
}

} // verus!
