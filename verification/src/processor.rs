//! The processor that binds the proof-of-stake chain to the engine: it takes
//! transactions in, stamps the valid ones into the hash chain and produces a
//! block per slot. Its owner shares it between threads and runs its clock.

use crate::block::Block;
use crate::engine::{
    spec_run_records, spec_run_state, spec_tick_record, spec_tick_state, PoH, TickInput,
};
use crate::lemmas::lemma_run_extends;
use crate::hash::MAX_HASH_INPUT_LEN;
use crate::record::{spec_record_views, PoHRecord, RecordView};
use crate::state::{spec_block_drawn, spec_rewardable, spec_total_stake, BlockchainState};
use crate::transaction::{spec_utf8, Transaction};
use crate::validator::Validator;
use vstd::prelude::*;

verus! {

/// Target wall duration of a slot in milliseconds.
pub const SLOT_DURATION_MS: u64 = 400;

/// Milliseconds between two looks of the processor at its clock.
pub const PROCESSOR_POLL_MS: u64 = 10;

/// The chain state and the transactions that were submitted and not yet
/// looked at.
#[derive(Debug)]
pub struct BlockchainProcessor {
    pub state: BlockchainState,
    pub transaction_queue: Vec<Transaction>,
}

/// Whether two blocks hold the same content.
pub open spec fn spec_same_block(a: Block, b: Block) -> bool {
    &&& a.height == b.height
    &&& a.slot == b.slot
    &&& a.epoch == b.epoch
    &&& a.timestamp_ms == b.timestamp_ms
    &&& a.transactions@ == b.transactions@
    &&& a.validator == b.validator
    &&& a.previous_hash == b.previous_hash
    &&& a.poh_record_hash == b.poh_record_hash
    &&& a.hash == b.hash
}

/// The blocks before position `upto` whose height lies in `start..end`, in
/// order.
pub open spec fn spec_blocks_in(blocks: Seq<Block>, start: u64, end: u64, upto: int) -> Seq<Block>
    decreases upto,
{
    if upto <= 0 {
        Seq::empty()
    } else if start <= blocks[upto - 1].height < end {
        spec_blocks_in(blocks, start, end, upto - 1).push(blocks[upto - 1])
    } else {
        spec_blocks_in(blocks, start, end, upto - 1)
    }
}

/// A chain state moved to the slot and epoch of a tick record.
pub open spec fn spec_moved(state: BlockchainState, record: PoHRecord) -> BlockchainState {
    BlockchainState {
        current_slot: record.slot_index,
        current_epoch: record.epoch_index,
        ..state
    }
}

/// The queued transactions before position `upto` that carry their
/// signature, in order.
pub open spec fn spec_accepted(queue: Seq<Transaction>, upto: int) -> Seq<Transaction>
    decreases upto,
{
    if upto <= 0 {
        Seq::empty()
    } else if queue[upto - 1].spec_verify() {
        spec_accepted(queue, upto - 1).push(queue[upto - 1])
    } else {
        spec_accepted(queue, upto - 1)
    }
}

/// The encoded forms of the queued transactions before position `upto` that
/// carry their signature, in order.
pub open spec fn spec_accepted_events(
    queue: Seq<Transaction>,
    encoded: Seq<Vec<u8>>,
    upto: int,
) -> Seq<Seq<u8>>
    decreases upto,
{
    if upto <= 0 {
        Seq::empty()
    } else if queue[upto - 1].spec_verify() {
        spec_accepted_events(queue, encoded, upto - 1).push(encoded[upto - 1]@)
    } else {
        spec_accepted_events(queue, encoded, upto - 1)
    }
}

/// What the ticks that stamp a run of events were given: each its event
/// and, for the clock, the timestamp its record got.
pub open spec fn spec_event_inputs(events: Seq<Seq<u8>>, records: Seq<RecordView>) -> Seq<
    TickInput,
> {
    Seq::new(
        records.len(),
        |i: int| TickInput { event: Some(events[i]), clock_ms: records[i].timestamp_ms },
    )
}

/// The slot that the wall clock is in, `elapsed_ms` after the start.
pub fn slot_at(elapsed_ms: u64) -> (slot: u64)
    ensures
        slot == elapsed_ms / SLOT_DURATION_MS,
{
    elapsed_ms / SLOT_DURATION_MS
}

/// The slot to produce a block for, if the wall clock has moved past the
/// last slot that got one.
pub fn slot_due(elapsed_ms: u64, last_slot: u64) -> (due: Option<u64>)
    ensures
        elapsed_ms / SLOT_DURATION_MS > last_slot ==> due == Some(elapsed_ms / SLOT_DURATION_MS),
        elapsed_ms / SLOT_DURATION_MS <= last_slot ==> due is None,
{
    let current_slot: u64 = slot_at(elapsed_ms);
    if current_slot > last_slot {
        Some(current_slot)
    } else {
        None
    }
}

impl BlockchainProcessor {
    /// A processor over a chain without blocks and an empty queue.
    pub fn new() -> (processor: BlockchainProcessor)
        ensures
            processor.transaction_queue@.len() == 0,
            processor.state.blocks@.len() == 0,
            processor.state.pending_transactions@.len() == 0,
            processor.state.validators@.len() == crate::state::GENESIS_VALIDATORS,
    {
        BlockchainProcessor { state: BlockchainState::new(), transaction_queue: Vec::new() }
    }

    /// Queues a transaction. It is looked at when the queue is processed.
    pub fn submit_transaction(&mut self, tx: Transaction) -> (queued: bool)
        ensures
            queued,
            final(self).transaction_queue@ == old(self).transaction_queue@.push(tx),
            final(self).state == old(self).state,
    {
        self.transaction_queue.push(tx);
        true
    }

    /// Creates a transaction now and queues it. Nothing is queued where the
    /// system clock gives no time to sign.
    pub fn create_transaction(&mut self, sender: &str, recipient: &str, amount: u64) -> (queued: bool)
        requires
            spec_utf8(sender@).len() + spec_utf8(recipient@).len() + 40 <= MAX_HASH_INPUT_LEN,
        ensures
            queued ==> {
                &&& final(self).transaction_queue@.len() == old(self).transaction_queue@.len() + 1
                &&& final(self).transaction_queue@.last().sender@ == sender@
                &&& final(self).transaction_queue@.last().recipient@ == recipient@
                &&& final(self).transaction_queue@.last().amount == amount
                &&& final(self).transaction_queue@.last().spec_verify()
                &&& forall|i: int|
                    0 <= i < old(self).transaction_queue@.len() ==> final(self).transaction_queue@[i] == old(self).transaction_queue@[i]
            },
            !queued ==> final(self).transaction_queue@ == old(self).transaction_queue@,
            final(self).state == old(self).state,
    {
        match Transaction::new(sender, recipient, amount) {
            Some(tx) => self.submit_transaction(tx),
            None => false,
        }
    }

    /// Empties the queue and hands out what was in it, oldest first.
    pub fn take_queue(&mut self) -> (queued: Vec<Transaction>)
        ensures
            queued@ == old(self).transaction_queue@,
            final(self).transaction_queue@.len() == 0,
            final(self).state == old(self).state,
    {
        let mut queued: Vec<Transaction> = Vec::new();
        std::mem::swap(&mut self.transaction_queue, &mut queued);
        queued
    }

    /// Looks at one transaction: a valid one joins those that wait for a
    /// block and is stamped into the hash chain as an event, in the encoded
    /// form that the caller gives; an invalid one is dropped.
    pub fn process_transaction(&mut self, poh: &mut PoH, tx: Transaction, encoded: &[u8]) -> (record:
        Option<PoHRecord>)
        requires
            old(poh).tick_count < u64::MAX,
            encoded@.len() + 32 <= MAX_HASH_INPUT_LEN,
        ensures
            (record is Some) == tx.spec_verify(),
            record is Some ==> {
                let input = TickInput {
                    event: Some(encoded@),
                    clock_ms: record->Some_0.timestamp_ms as nat,
                };
                &&& record->Some_0@ == spec_tick_record(old(poh)@, input)
                &&& final(poh)@ == spec_tick_state(old(poh)@, input)
                &&& final(self).state.pending_transactions@ == old(self).state.pending_transactions@.push(tx)
            },
            record is None ==> final(poh)@ == old(poh)@ && final(self).state.pending_transactions@
                == old(self).state.pending_transactions@,
            final(self).transaction_queue == old(self).transaction_queue,
            final(self).state.blocks == old(self).state.blocks,
            final(self).state.validators == old(self).state.validators,
    {
        if self.state.add_transaction(tx) {
            Some(poh.insert_event(encoded))
        } else {
            None
        }
    }

    /// Looks at every queued transaction, oldest first, and empties the
    /// queue: each valid one joins those that wait for a block and is
    /// stamped into the hash chain as an event, in the encoded form that the
    /// caller gives for its position; the invalid ones are dropped. The
    /// records are those of a run of the engine over the events of the valid
    /// transactions, in order.
    pub fn process_transactions(&mut self, poh: &mut PoH, encoded: &Vec<Vec<u8>>) -> (records: Vec<
        PoHRecord,
    >)
        requires
            encoded@.len() == old(self).transaction_queue@.len(),
            old(poh).tick_count + encoded@.len() <= u64::MAX,
            forall|i: int|
                0 <= i < encoded@.len() ==> (#[trigger] encoded@[i])@.len() + 32
                    <= MAX_HASH_INPUT_LEN,
        ensures
            final(self).transaction_queue@.len() == 0,
            records@.len() == spec_accepted(
                old(self).transaction_queue@,
                old(self).transaction_queue@.len() as int,
            ).len(),
            spec_record_views(records@) == spec_run_records(
                old(poh)@,
                spec_event_inputs(
                    spec_accepted_events(
                        old(self).transaction_queue@,
                        encoded@,
                        encoded@.len() as int,
                    ),
                    spec_record_views(records@),
                ),
            ),
            final(poh)@ == spec_run_state(
                old(poh)@,
                spec_event_inputs(
                    spec_accepted_events(
                        old(self).transaction_queue@,
                        encoded@,
                        encoded@.len() as int,
                    ),
                    spec_record_views(records@),
                ),
            ),
            final(self).state.pending_transactions@ == old(self).state.pending_transactions@
                + spec_accepted(
                old(self).transaction_queue@,
                old(self).transaction_queue@.len() as int,
            ),
            final(self).state.blocks == old(self).state.blocks,
            final(self).state.validators == old(self).state.validators,
    {
        let ghost start = poh@;
        let ghost pending = self.state.pending_transactions@;
        let queued: Vec<Transaction> = self.take_queue();
        let ghost mut inputs: Seq<TickInput> = Seq::empty();
        let mut records: Vec<PoHRecord> = Vec::new();
        let mut i: usize = 0;
        assert(spec_run_records(start, inputs) =~= spec_record_views(records@));
        assert(spec_event_inputs(
            spec_accepted_events(queued@, encoded@, 0),
            spec_record_views(records@),
        ) =~= inputs);
        assert(self.state.pending_transactions@ =~= pending + spec_accepted(queued@, 0));
        while i < queued.len()
            invariant
                i <= queued@.len(),
                queued@.len() == encoded@.len(),
                start.tick_count + encoded@.len() <= u64::MAX,
                forall|k: int|
                    0 <= k < encoded@.len() ==> (#[trigger] encoded@[k])@.len() + 32
                        <= MAX_HASH_INPUT_LEN,
                self.transaction_queue@.len() == 0,
                self.state.blocks == old(self).state.blocks,
                self.state.validators == old(self).state.validators,
                records@.len() == spec_accepted(queued@, i as int).len(),
                records@.len() == spec_accepted_events(queued@, encoded@, i as int).len(),
                records@.len() <= i,
                poh@ == spec_run_state(start, inputs),
                poh.tick_count == start.tick_count + records@.len(),
                spec_record_views(records@) == spec_run_records(start, inputs),
                inputs == spec_event_inputs(
                    spec_accepted_events(queued@, encoded@, i as int),
                    spec_record_views(records@),
                ),
                self.state.pending_transactions@ == pending + spec_accepted(queued@, i as int),
            decreases queued@.len() - i,
        {
            let ghost views = spec_record_views(records@);
            let ghost events = spec_accepted_events(queued@, encoded@, i as int);
            let tx: Transaction = queued[i].duplicate();
            let stamped: Option<PoHRecord> = self.process_transaction(
                poh,
                tx,
                encoded[i].as_slice(),
            );
            match stamped {
                Some(record) => {
                    let ghost input = TickInput {
                        event: Some(encoded@[i as int]@),
                        clock_ms: record.timestamp_ms as nat,
                    };
                    proof {
                        lemma_run_extends(start, inputs, input);
                    }
                    records.push(record);
                    proof {
                        assert(spec_record_views(records@) =~= views.push(record@));
                        assert(spec_accepted_events(queued@, encoded@, i + 1) == events.push(
                            encoded@[i as int]@,
                        ));
                        assert(spec_event_inputs(
                            spec_accepted_events(queued@, encoded@, i + 1),
                            spec_record_views(records@),
                        ) =~= inputs.push(input));
                        inputs = inputs.push(input);
                        assert(self.state.pending_transactions@ =~= pending + spec_accepted(
                            queued@,
                            i + 1,
                        ));
                    }
                },
                None => {
                    proof {
                        assert(spec_accepted_events(queued@, encoded@, i + 1) == events);
                        assert(self.state.pending_transactions@ =~= pending + spec_accepted(
                            queued@,
                            i + 1,
                        ));
                    }
                },
            }
            i = i + 1;
        }
        records
    }

    /// Moves the chain to the slot and epoch of a tick record and produces
    /// the block of that slot.
    pub fn process_slot(&mut self, poh_record: &PoHRecord) -> (block: Option<Block>)
        requires
            0 < spec_total_stake(old(self).state.validators@) <= u64::MAX || old(self).state.validators@.len() == 0,
            forall|i: int|
                0 <= i < old(self).state.validators@.len() ==> spec_rewardable(
                    #[trigger] old(self).state.validators@[i],
                ),
        ensures
            (block is Some) == (old(self).state.validators@.len() > 0),
            block is None ==> final(self).state == spec_moved(old(self).state, *poh_record),
            block is Some ==> spec_block_drawn(
                spec_moved(old(self).state, *poh_record),
                *poh_record,
                block->Some_0,
                final(self).state,
            ),
            final(self).transaction_queue == old(self).transaction_queue,
    {
        self.state.current_slot = poh_record.slot_index;
        self.state.current_epoch = poh_record.epoch_index;
        self.state.generate_block(poh_record)
    }

    /// The chain state.
    pub fn get_state(&self) -> (state: &BlockchainState)
        ensures
            *state == self.state,
    {
        &self.state
    }

    /// A copy of the first block of the given height, if there is one.
    pub fn get_block(&self, height: u64) -> (block: Option<Block>)
        ensures
            match block {
                Some(found) => exists|i: int|
                    0 <= i < self.state.blocks@.len() && spec_same_block(
                        found,
                        #[trigger] self.state.blocks@[i],
                    ) && found.height == height && forall|j: int|
                        0 <= j < i ==> (#[trigger] self.state.blocks@[j]).height != height,
                None => forall|j: int|
                    0 <= j < self.state.blocks@.len() ==> (#[trigger] self.state.blocks@[j]).height
                        != height,
            },
    {
        let mut i: usize = 0;
        while i < self.state.blocks.len()
            invariant
                i <= self.state.blocks@.len(),
                forall|j: int| 0 <= j < i ==> (#[trigger] self.state.blocks@[j]).height != height,
            decreases self.state.blocks@.len() - i,
        {
            if self.state.blocks[i].height == height {
                let found: Block = self.state.blocks[i].duplicate();
                assert(spec_same_block(found, self.state.blocks@[i as int]));
                return Some(found);
            }
            i = i + 1;
        }
        None
    }

    /// Copies of the blocks whose height is at least `start` and below
    /// `end`, in the order of the chain.
    pub fn get_blocks(&self, start: u64, end: u64) -> (blocks: Vec<Block>)
        ensures
            blocks@.len() == spec_blocks_in(
                self.state.blocks@,
                start,
                end,
                self.state.blocks@.len() as int,
            ).len(),
            forall|i: int|
                0 <= i < blocks@.len() ==> spec_same_block(
                    #[trigger] blocks@[i],
                    spec_blocks_in(
                        self.state.blocks@,
                        start,
                        end,
                        self.state.blocks@.len() as int,
                    )[i],
                ),
    {
        let mut blocks: Vec<Block> = Vec::new();
        let mut i: usize = 0;
        while i < self.state.blocks.len()
            invariant
                i <= self.state.blocks@.len(),
                blocks@.len() == spec_blocks_in(self.state.blocks@, start, end, i as int).len(),
                forall|j: int|
                    0 <= j < blocks@.len() ==> spec_same_block(
                        #[trigger] blocks@[j],
                        spec_blocks_in(self.state.blocks@, start, end, i as int)[j],
                    ),
            decreases self.state.blocks@.len() - i,
        {
            if self.state.blocks[i].height >= start && self.state.blocks[i].height < end {
                blocks.push(self.state.blocks[i].duplicate());
            }
            i = i + 1;
        }
        blocks
    }

    /// A copy of the first validator of the given address, if there is one.
    pub fn get_validator(&self, address: &str) -> (validator: Option<Validator>)
        ensures
            match validator {
                Some(found) => exists|i: int|
                    0 <= i < self.state.validators@.len() && found
                        == #[trigger] self.state.validators@[i] && found.address@ == address@
                        && forall|j: int|
                        0 <= j < i ==> (#[trigger] self.state.validators@[j]).address@ != address@,
                None => forall|j: int|
                    0 <= j < self.state.validators@.len() ==> (
                    #[trigger] self.state.validators@[j]).address@ != address@,
            },
    {
        let wanted: String = address.to_owned();
        let mut i: usize = 0;
        while i < self.state.validators.len()
            invariant
                i <= self.state.validators@.len(),
                wanted@ == address@,
                forall|j: int|
                    0 <= j < i ==> (#[trigger] self.state.validators@[j]).address@ != address@,
            decreases self.state.validators@.len() - i,
        {
            if self.state.validators[i].address == wanted {
                return Some(self.state.validators[i].duplicate());
            }
            i = i + 1;
        }
        None
    }

    /// Copies of all validators, in the order in which they joined.
    pub fn get_validators(&self) -> (validators: Vec<Validator>)
        ensures
            validators@ == self.state.validators@,
    {
        let mut validators: Vec<Validator> = Vec::new();
        let mut i: usize = 0;
        while i < self.state.validators.len()
            invariant
                i <= self.state.validators@.len(),
                validators@ == self.state.validators@.take(i as int),
            decreases self.state.validators@.len() - i,
        {
            validators.push(self.state.validators[i].duplicate());
            assert(validators@ =~= self.state.validators@.take(i + 1));
            i = i + 1;
        }
        assert(self.state.validators@.take(i as int) =~= self.state.validators@);
        validators
    }
}

} // verus!
