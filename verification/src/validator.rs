//! A validator of the proof-of-stake layer.

use vstd::prelude::*;

verus! {

/// A validator and what it has earned.
#[derive(Debug, Clone)]
pub struct Validator {
    /// The validator's address.
    pub address: String,
    /// The validator's stake.
    pub stake: u64,
    /// Blocks the validator has produced.
    pub blocks_produced: u64,
    /// The last slot in which the validator produced a block.
    pub last_active_slot: u64,
    /// Rewards the validator has earned.
    pub rewards_earned: u64,
}

impl Validator {
    /// A validator of the given address and stake that has produced nothing yet.
    pub fn new(address: &str, stake: u64) -> (validator: Validator)
        ensures
            validator.address@ == address@,
            validator.stake == stake,
            validator.blocks_produced == 0,
            validator.last_active_slot == 0,
            validator.rewards_earned == 0,
    {
        Validator {
            address: address.to_owned(),
            stake,
            blocks_produced: 0,
            last_active_slot: 0,
            rewards_earned: 0,
        }
    }

    /// A copy of the validator.
    pub fn duplicate(&self) -> (copy: Validator)
        ensures
            copy == *self,
    {
        Validator {
            address: self.address.clone(),
            stake: self.stake,
            blocks_produced: self.blocks_produced,
            last_active_slot: self.last_active_slot,
            rewards_earned: self.rewards_earned,
        }
    }
}

} // verus!
