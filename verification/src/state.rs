//! The state of the proof-of-stake chain: its blocks, its validators and the
//! transactions that wait for a block.

use crate::block::{spec_block_hash, spec_hashable, Block};
use crate::record::PoHRecord;
use crate::serialization::{encode_hash, spec_hex_encode};
use crate::transaction::Transaction;
use crate::validator::Validator;
use vstd::prelude::*;

verus! {

/// Stake of each validator at the start of the chain.
pub const GENESIS_STAKE: u64 = 1000;

/// Fewest transactions drawn for a block while some wait.
pub const MIN_TRANSACTIONS_PER_BLOCK: usize = 1;

/// Most transactions of a block.
pub const MAX_TRANSACTIONS_PER_BLOCK: usize = 300;

/// Reward for a block, added to the stake of the validator that produced it.
pub const REWARD_PER_BLOCK: u64 = 5;

/// Number of validators at the start of the chain.
pub const GENESIS_VALIDATORS: usize = 4;

/// The state of the chain.
#[derive(Debug)]
pub struct BlockchainState {
    /// The blocks of the chain, in order.
    pub blocks: Vec<Block>,
    /// The validators, in the order in which they joined.
    pub validators: Vec<Validator>,
    /// Verified transactions that wait for a block, oldest first.
    pub pending_transactions: Vec<Transaction>,
    /// The slot the chain is in.
    pub current_slot: u64,
    /// The epoch the chain is in.
    pub current_epoch: u64,
    /// Hash of the last block, 64 zeros before the first.
    pub last_block_hash: String,
}

/// Calls `rand::rng` and draws from it a number between the two bounds, both
/// included, with `Rng::random_range`. Trusted: the number lies within the
/// bounds; which one it is may differ from call to call. An empty range, on
/// which the call would not return, is left out.
#[verifier::external_body]
fn random_in(low: u64, high: u64) -> (drawn: u64)
    requires
        low <= high,
    ensures
        low <= drawn <= high,
{
    rand::Rng::random_range(&mut rand::rng(), low..=high)
}

/// Whether no address occurs twice among the validators.
pub open spec fn spec_distinct_addresses(validators: Seq<Validator>) -> bool {
    forall|i: int, j: int|
        0 <= i < j < validators.len() ==> (#[trigger] validators[i]).address@ != (
        #[trigger] validators[j]).address@
}

/// The stake of the validators before position `upto`, added up.
pub open spec fn spec_stake_before(validators: Seq<Validator>, upto: int) -> int
    decreases upto,
{
    if upto <= 0 {
        0
    } else {
        spec_stake_before(validators, upto - 1) + validators[upto - 1].stake
    }
}

/// The stake of all validators, added up.
pub open spec fn spec_total_stake(validators: Seq<Validator>) -> int {
    spec_stake_before(validators, validators.len() as int)
}

/// Whether `chosen` is the validator that a selection point picks: the one
/// whose share of the total stake the point falls in, or the first one where
/// the point lies past the total.
pub open spec fn spec_selected(validators: Seq<Validator>, point: u64, chosen: int) -> bool {
    &&& 0 <= chosen < validators.len()
    &&& if point < spec_total_stake(validators) {
        spec_stake_before(validators, chosen) <= point < spec_stake_before(validators, chosen + 1)
    } else {
        chosen == 0
    }
}

/// Whether `chosen` is a validator that a draw by stake may give: the one
/// that some point below the total stake picks.
pub open spec fn spec_drawn(validators: Seq<Validator>, chosen: int) -> bool {
    exists|point: u64|
        point < spec_total_stake(validators) && #[trigger] spec_selected(validators, point, chosen)
}

/// A validator after it produced a block in `slot`.
pub open spec fn spec_rewarded(validator: Validator, slot: u64) -> Validator {
    Validator {
        address: validator.address,
        stake: (validator.stake + REWARD_PER_BLOCK) as u64,
        blocks_produced: (validator.blocks_produced + 1) as u64,
        last_active_slot: slot,
        rewards_earned: (validator.rewards_earned + REWARD_PER_BLOCK) as u64,
    }
}

/// Whether a validator has room for one more reward.
pub open spec fn spec_rewardable(validator: Validator) -> bool {
    &&& validator.stake + REWARD_PER_BLOCK <= u64::MAX
    &&& validator.blocks_produced + 1 <= u64::MAX
    &&& validator.rewards_earned + REWARD_PER_BLOCK <= u64::MAX
}

/// The number of transactions that go into a block when `pending` wait and
/// at most `limit` are drawn.
pub open spec fn spec_block_size(pending: nat, limit: usize) -> nat {
    if limit <= pending {
        limit as nat
    } else {
        pending
    }
}

/// What producing a block does: the block `made` by the validator at
/// position `chosen` takes the `size` oldest pending transactions, is bound
/// to the tick record and to the last block, and joins the chain; the
/// validator is rewarded; the rest of the state stays.
pub open spec fn spec_block_produced(
    before: BlockchainState,
    record: PoHRecord,
    chosen: int,
    size: int,
    made: Block,
    after: BlockchainState,
) -> bool {
    &&& 0 <= chosen < before.validators@.len()
    &&& 0 <= size <= before.pending_transactions@.len()
    &&& made.height == before.blocks@.len()
    &&& made.slot == before.current_slot
    &&& made.epoch == before.current_epoch
    &&& made.timestamp_ms == record.timestamp_ms
    &&& made.transactions@ == before.pending_transactions@.subrange(0, size)
    &&& made.validator@ == before.validators@[chosen].address@
    &&& made.previous_hash@ == before.last_block_hash@
    &&& made.poh_record_hash@ == spec_hex_encode(record.hash@)
    &&& spec_hashable(made) ==> made.hash@ == spec_block_hash(made)
    &&& after.pending_transactions@ == before.pending_transactions@.subrange(
        size,
        before.pending_transactions@.len() as int,
    )
    &&& after.validators@ == before.validators@.update(
        chosen,
        spec_rewarded(before.validators@[chosen], before.current_slot),
    )
    &&& after.blocks@.len() == before.blocks@.len() + 1
    &&& forall|i: int| 0 <= i < before.blocks@.len() ==> after.blocks@[i] == before.blocks@[i]
    &&& after.blocks@.last().height == made.height
    &&& after.blocks@.last().slot == made.slot
    &&& after.blocks@.last().epoch == made.epoch
    &&& after.blocks@.last().timestamp_ms == made.timestamp_ms
    &&& after.blocks@.last().transactions@ == made.transactions@
    &&& after.blocks@.last().validator == made.validator
    &&& after.blocks@.last().previous_hash == made.previous_hash
    &&& after.blocks@.last().poh_record_hash == made.poh_record_hash
    &&& after.blocks@.last().hash == made.hash
    &&& after.last_block_hash == made.hash
    &&& after.current_slot == before.current_slot
    &&& after.current_epoch == before.current_epoch
    &&& before.wf() ==> after.wf()
}

/// What a random draw may make of a block: a validator drawn by stake and,
/// while transactions wait, between 1 and 300 of them, never more than wait.
pub open spec fn spec_block_drawn(
    before: BlockchainState,
    record: PoHRecord,
    made: Block,
    after: BlockchainState,
) -> bool {
    exists|chosen: int, limit: usize|
        {
            &&& spec_drawn(before.validators@, chosen)
            &&& before.pending_transactions@.len() > 0 ==> MIN_TRANSACTIONS_PER_BLOCK <= limit
                <= MAX_TRANSACTIONS_PER_BLOCK
            &&& before.pending_transactions@.len() == 0 ==> limit == 0
            &&& #[trigger] spec_block_produced(
                before,
                record,
                chosen,
                spec_block_size(before.pending_transactions@.len(), limit) as int,
                made,
                after,
            )
        }
}

/// Stake before a position never exceeds stake before a later one.
pub proof fn lemma_stake_monotonic(validators: Seq<Validator>, i: int, j: int)
    requires
        0 <= i <= j,
    ensures
        0 <= spec_stake_before(validators, i) <= spec_stake_before(validators, j),
    decreases j,
{
    if j > 0 {
        if i < j {
            lemma_stake_monotonic(validators, i, j - 1);
        } else {
            lemma_stake_monotonic(validators, i - 1, j - 1);
        }
    }
}

impl BlockchainState {
    /// Whether the state is sound: every validator is known by one address
    /// of its own.
    pub open spec fn wf(&self) -> bool {
        spec_distinct_addresses(self.validators@)
    }

    /// Creates the state of a chain without blocks: four validators of equal
    /// stake, nothing pending, and 64 zeros as the last block hash.
    pub fn new() -> (state: BlockchainState)
        ensures
            state.blocks@.len() == 0,
            state.pending_transactions@.len() == 0,
            state.current_slot == 0,
            state.current_epoch == 0,
            state.last_block_hash@
                == "0000000000000000000000000000000000000000000000000000000000000000"@,
            state.validators@.len() == GENESIS_VALIDATORS,
            state.validators@[0].address@ == "validator-1"@,
            state.validators@[1].address@ == "validator-2"@,
            state.validators@[2].address@ == "validator-3"@,
            state.validators@[3].address@ == "validator-4"@,
            forall|i: int|
                0 <= i < GENESIS_VALIDATORS ==> (#[trigger] state.validators@[i]).stake
                    == GENESIS_STAKE && state.validators@[i].blocks_produced == 0
                    && state.validators@[i].last_active_slot == 0
                    && state.validators@[i].rewards_earned == 0,
            spec_total_stake(state.validators@) == GENESIS_VALIDATORS * GENESIS_STAKE,
            state.wf(),
    {
        let mut validators: Vec<Validator> = Vec::new();
        validators.push(Validator::new("validator-1", GENESIS_STAKE));
        validators.push(Validator::new("validator-2", GENESIS_STAKE));
        validators.push(Validator::new("validator-3", GENESIS_STAKE));
        validators.push(Validator::new("validator-4", GENESIS_STAKE));
        proof {
            reveal_with_fuel(spec_stake_before, 5);
            reveal_strlit("validator-1");
            reveal_strlit("validator-2");
            reveal_strlit("validator-3");
            reveal_strlit("validator-4");
            assert("validator-1"@[10] == '1');
            assert("validator-2"@[10] == '2');
            assert("validator-3"@[10] == '3');
            assert("validator-4"@[10] == '4');
        }
        BlockchainState {
            blocks: Vec::new(),
            validators,
            pending_transactions: Vec::new(),
            current_slot: 0,
            current_epoch: 0,
            last_block_hash: "0000000000000000000000000000000000000000000000000000000000000000".to_owned(),
        }
    }

    /// Adds a transaction to those that wait, if its signature is valid.
    pub fn add_transaction(&mut self, transaction: Transaction) -> (added: bool)
        ensures
            added == transaction.spec_verify(),
            added ==> final(self).pending_transactions@ == old(self).pending_transactions@.push(
                transaction,
            ),
            !added ==> final(self).pending_transactions@ == old(self).pending_transactions@,
            final(self).blocks == old(self).blocks,
            final(self).validators == old(self).validators,
            final(self).current_slot == old(self).current_slot,
            final(self).current_epoch == old(self).current_epoch,
            final(self).last_block_hash == old(self).last_block_hash,
            old(self).wf() ==> final(self).wf(),
    {
        if !transaction.verify() {
            return false;
        }
        self.pending_transactions.push(transaction);
        true
    }

    /// The stake of all validators, if it fits in 64 bits.
    pub fn total_stake(&self) -> (total: Option<u64>)
        ensures
            spec_total_stake(self.validators@) <= u64::MAX ==> total == Some(
                spec_total_stake(self.validators@) as u64,
            ),
            spec_total_stake(self.validators@) > u64::MAX ==> total is None,
    {
        let mut total: u64 = 0;
        let mut i: usize = 0;
        while i < self.validators.len()
            invariant
                i <= self.validators@.len(),
                total == spec_stake_before(self.validators@, i as int),
            decreases self.validators@.len() - i,
        {
            proof {
                lemma_stake_monotonic(
                    self.validators@,
                    i + 1,
                    self.validators@.len() as int,
                );
            }
            match total.checked_add(self.validators[i].stake) {
                Some(sum) => {
                    total = sum;
                },
                None => {
                    return None;
                },
            }
            i = i + 1;
        }
        Some(total)
    }

    /// Picks the validator for a selection point: each validator owns a share
    /// of the points as large as its stake, in the order of the validators.
    pub fn select_validator_at(&self, selection_point: u64) -> (chosen: Option<usize>)
        ensures
            self.validators@.len() == 0 ==> chosen is None,
            self.validators@.len() > 0 ==> chosen is Some && spec_selected(
                self.validators@,
                selection_point,
                chosen->Some_0 as int,
            ),
    {
        if self.validators.len() == 0 {
            return None;
        }
        let mut remaining: u64 = selection_point;
        let mut i: usize = 0;
        while i < self.validators.len()
            invariant
                i <= self.validators@.len(),
                remaining == selection_point - spec_stake_before(self.validators@, i as int),
            decreases self.validators@.len() - i,
        {
            let stake: u64 = self.validators[i].stake;
            if remaining < stake {
                proof {
                    lemma_stake_monotonic(
                        self.validators@,
                        i + 1,
                        self.validators@.len() as int,
                    );
                }
                return Some(i);
            }
            remaining = remaining - stake;
            i = i + 1;
        }
        Some(0)
    }

    /// Picks a validator at random, each with a chance as large as its share
    /// of the stake: the address is that of the validator that some point
    /// below the total stake picks. Without validators there is none to pick.
    pub fn select_validator(&self) -> (address: Option<String>)
        requires
            0 < spec_total_stake(self.validators@) <= u64::MAX || self.validators@.len() == 0,
        ensures
            self.validators@.len() == 0 ==> address is None,
            self.validators@.len() > 0 ==> address is Some && exists|point: u64, chosen: int|
                point < spec_total_stake(self.validators@) && #[trigger] spec_selected(
                    self.validators@,
                    point,
                    chosen,
                ) && self.validators@[chosen].address == address->Some_0,
    {
        match self.draw_validator() {
            Some(chosen) => Some(self.validators[chosen].address.clone()),
            None => None,
        }
    }

    /// Draws the position of a validator at random by stake: the position
    /// that some point below the total stake picks.
    pub fn draw_validator(&self) -> (chosen: Option<usize>)
        requires
            0 < spec_total_stake(self.validators@) <= u64::MAX || self.validators@.len() == 0,
        ensures
            self.validators@.len() == 0 ==> chosen is None,
            self.validators@.len() > 0 ==> chosen is Some && spec_drawn(
                self.validators@,
                chosen->Some_0 as int,
            ),
    {
        if self.validators.len() == 0 {
            return None;
        }
        let total: u64 = match self.total_stake() {
            Some(total) => total,
            None => {
                return None;
            },
        };
        let selection_point: u64 = random_in(0, total - 1);
        self.select_validator_at(selection_point)
    }

    /// Produces the block of the current slot with a given validator and a
    /// given limit on its size: takes the oldest pending transactions up to
    /// the limit, binds the block to the tick record and to the last block,
    /// rewards the validator and appends the block to the chain.
    pub fn generate_block_with(
        &mut self,
        poh_record: &PoHRecord,
        validator_index: usize,
        tx_limit: usize,
    ) -> (block: Block)
        requires
            validator_index < old(self).validators@.len(),
            spec_rewardable(old(self).validators@[validator_index as int]),
        ensures
            spec_block_produced(
                *old(self),
                *poh_record,
                validator_index as int,
                spec_block_size(old(self).pending_transactions@.len(), tx_limit) as int,
                block,
                *final(self),
            ),
    {
        let tx_count: usize = if tx_limit <= self.pending_transactions.len() {
            tx_limit
        } else {
            self.pending_transactions.len()
        };
        let mut transactions: Vec<Transaction> = self.pending_transactions.split_off(tx_count);
        std::mem::swap(&mut self.pending_transactions, &mut transactions);
        let record_hash: String = encode_hash(&poh_record.hash);
        let block: Block = Block::new(
            self.blocks.len() as u64,
            self.current_slot,
            self.current_epoch,
            poh_record.timestamp_ms,
            transactions,
            self.validators[validator_index].address.as_str(),
            self.last_block_hash.as_str(),
            record_hash.as_str(),
        );
        let rewarded = Validator {
            address: self.validators[validator_index].address.clone(),
            stake: self.validators[validator_index].stake + REWARD_PER_BLOCK,
            blocks_produced: self.validators[validator_index].blocks_produced + 1,
            last_active_slot: self.current_slot,
            rewards_earned: self.validators[validator_index].rewards_earned + REWARD_PER_BLOCK,
        };
        self.validators[validator_index] = rewarded;
        self.blocks.push(block.duplicate());
        self.last_block_hash = block.hash.clone();
        block
    }

    /// Produces the block of the current slot: the validator is drawn at
    /// random by stake, and while transactions wait, between 1 and 300 of
    /// them go into the block, as many as a random draw allows. Without
    /// validators no block is produced.
    pub fn generate_block(&mut self, poh_record: &PoHRecord) -> (block: Option<Block>)
        requires
            0 < spec_total_stake(old(self).validators@) <= u64::MAX || old(self).validators@.len()
                == 0,
            forall|i: int|
                0 <= i < old(self).validators@.len() ==> spec_rewardable(
                    #[trigger] old(self).validators@[i],
                ),
        ensures
            (block is Some) == (old(self).validators@.len() > 0),
            block is None ==> *final(self) == *old(self),
            block is Some ==> spec_block_drawn(*old(self), *poh_record, block->Some_0, *final(self)),
    {
        let chosen: usize = match self.draw_validator() {
            Some(chosen) => chosen,
            None => {
                return None;
            },
        };
        let tx_limit: usize = if self.pending_transactions.len() > 0 {
            random_in(MIN_TRANSACTIONS_PER_BLOCK as u64, MAX_TRANSACTIONS_PER_BLOCK as u64) as usize
        } else {
            0
        };
        Some(self.generate_block_with(poh_record, chosen, tx_limit))
    }
}

impl Default for BlockchainState {
    fn default() -> (state: BlockchainState)
        ensures
            state.blocks@.len() == 0,
            state.validators@.len() == GENESIS_VALIDATORS,
            state.pending_transactions@.len() == 0,
    {
        BlockchainState::new()
    }
}

} // verus!
