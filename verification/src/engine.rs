//! The Proof-of-History engine: a hash chain that advances tick by tick and
//! can bind an event to a tick.

use crate::constants::{DEFAULT_HASHES_PER_TICK, DEFAULT_SLOTS_PER_EPOCH, DEFAULT_TICKS_PER_SLOT};
use crate::hash::{
    extend_hash_chain, hash, hash_with_data, spec_event_bytes, spec_event_fits,
    spec_expected_hash, spec_hash, MAX_HASH_INPUT_LEN,
};
use crate::record::{PoHRecord, RecordView};
use std::time::{Duration, Instant};
use vstd::prelude::*;

verus! {

/// A point of the monotonic clock. Nothing is known of what is inside.
#[verifier::external_type_specification]
#[verifier::external_body]
pub struct ExInstant(std::time::Instant);

/// `Instant::now` reads the monotonic clock: nothing is claimed of the reading.
pub assume_specification[ std::time::Instant::now ]() -> (now: Instant);

/// `Instant::elapsed` measures the time since a point of the clock: nothing is
/// claimed of the measure.
pub assume_specification[ std::time::Instant::elapsed ](start: &Instant) -> (elapsed: Duration);

/// `Duration::as_millis` gives the whole milliseconds of a duration: nothing is
/// claimed of the number.
pub assume_specification[ std::time::Duration::as_millis ](duration: &Duration) -> (millis: u128);

/// The state of an engine. Only the worker that owns it changes it.
pub struct PoH {
    /// Identifier of the hash algorithm of this chain.
    pub algorithm: u8,
    /// The chain state after the last tick.
    pub current_hash: [u8; 32],
    /// Index of the next tick to emit.
    pub tick_count: u64,
    /// Timestamp of the last record emitted, 0 before the first.
    pub last_timestamp_ms: u64,
    /// The point of the clock from which timestamps count.
    pub start_time: Instant,
}

/// The part of an engine's state that decides its records.
pub struct EngineView {
    pub algorithm: u8,
    pub current_hash: Seq<u8>,
    pub tick_count: nat,
    pub last_timestamp_ms: nat,
}

/// What one tick is given: the event it stamps, if any, and the reading of
/// the clock at its end.
pub struct TickInput {
    pub event: Option<Seq<u8>>,
    pub clock_ms: nat,
}

/// The state of an engine that was just created from `seed`.
pub open spec fn spec_initial(algorithm: u8, seed: Seq<u8>) -> EngineView {
    EngineView {
        algorithm,
        current_hash: spec_hash(algorithm, seed),
        tick_count: 0,
        last_timestamp_ms: 0,
    }
}

/// The timestamp of a tick: the clock's reading, or the last timestamp where
/// the reading lies before it.
pub open spec fn spec_timestamp(last_timestamp_ms: nat, clock_ms: nat) -> nat {
    if clock_ms < last_timestamp_ms {
        last_timestamp_ms
    } else {
        clock_ms
    }
}

/// The record that a tick emits from a state.
pub open spec fn spec_tick_record(state: EngineView, input: TickInput) -> RecordView {
    RecordView {
        tick_index: state.tick_count,
        slot_index: state.tick_count / (DEFAULT_TICKS_PER_SLOT as nat),
        epoch_index: (state.tick_count / (DEFAULT_TICKS_PER_SLOT as nat)) / (
        DEFAULT_SLOTS_PER_EPOCH as nat),
        hash: spec_expected_hash(
            state.algorithm,
            state.current_hash,
            DEFAULT_HASHES_PER_TICK as nat,
            input.event,
        ),
        timestamp_ms: spec_timestamp(state.last_timestamp_ms, input.clock_ms),
        event: input.event,
    }
}

/// The state that a tick leaves behind.
pub open spec fn spec_tick_state(state: EngineView, input: TickInput) -> EngineView {
    EngineView {
        algorithm: state.algorithm,
        current_hash: spec_expected_hash(
            state.algorithm,
            state.current_hash,
            DEFAULT_HASHES_PER_TICK as nat,
            input.event,
        ),
        tick_count: state.tick_count + 1,
        last_timestamp_ms: spec_timestamp(state.last_timestamp_ms, input.clock_ms),
    }
}

/// The state of an engine after a run of ticks.
pub open spec fn spec_run_state(start: EngineView, inputs: Seq<TickInput>) -> EngineView
    decreases inputs.len(),
{
    if inputs.len() == 0 {
        start
    } else {
        spec_tick_state(spec_run_state(start, inputs.drop_last()), inputs.last())
    }
}

/// The records that an engine emits over a run of ticks, in order.
pub open spec fn spec_run_records(start: EngineView, inputs: Seq<TickInput>) -> Seq<RecordView> {
    Seq::new(
        inputs.len(),
        |i: int| spec_tick_record(spec_run_state(start, inputs.take(i)), inputs[i]),
    )
}

impl View for PoH {
    type V = EngineView;

    open spec fn view(&self) -> EngineView {
        EngineView {
            algorithm: self.algorithm,
            current_hash: self.current_hash@,
            tick_count: self.tick_count as nat,
            last_timestamp_ms: self.last_timestamp_ms as nat,
        }
    }
}

impl PoH {
    /// Creates an engine whose chain starts at the digest of `seed`, with its
    /// counters at 0 and its clock anchored at the moment of the call.
    pub fn new(algorithm: u8, seed: &[u8]) -> (engine: PoH)
        requires
            seed@.len() <= MAX_HASH_INPUT_LEN,
        ensures
            engine@ == spec_initial(algorithm, seed@),
    {
        let current_hash: [u8; 32] = hash(algorithm, seed);
        PoH {
            algorithm,
            current_hash,
            tick_count: 0,
            last_timestamp_ms: 0,
            start_time: Instant::now(),
        }
    }

    /// Advances the chain by one tick that stamps no event.
    pub fn next_tick(&mut self) -> (record: PoHRecord)
        requires
            old(self).tick_count < u64::MAX,
        ensures
            record@ == spec_tick_record(
                old(self)@,
                (TickInput { event: None, clock_ms: record.timestamp_ms as nat }),
            ),
            final(self)@ == spec_tick_state(
                old(self)@,
                (TickInput { event: None, clock_ms: record.timestamp_ms as nat }),
            ),
            record.timestamp_ms >= old(self).last_timestamp_ms,
            final(self).start_time == old(self).start_time,
    {
        self.tick(None)
    }

    /// Advances the chain by one tick that first mixes `event_data` into the
    /// chain state. The record carries a copy of the event.
    pub fn insert_event(&mut self, event_data: &[u8]) -> (record: PoHRecord)
        requires
            old(self).tick_count < u64::MAX,
            event_data@.len() + 32 <= MAX_HASH_INPUT_LEN,
        ensures
            record@ == spec_tick_record(
                old(self)@,
                (TickInput { event: Some(event_data@), clock_ms: record.timestamp_ms as nat }),
            ),
            final(self)@ == spec_tick_state(
                old(self)@,
                (TickInput { event: Some(event_data@), clock_ms: record.timestamp_ms as nat }),
            ),
            record.timestamp_ms >= old(self).last_timestamp_ms,
            final(self).start_time == old(self).start_time,
    {
        self.tick(Some(event_data))
    }

    /// One tick: extends the chain, then reads the clock and emits the record.
    /// Whatever the clock reads, the record's timestamp is not below that of
    /// the record before it.
    pub fn tick(&mut self, event_data: Option<&[u8]>) -> (record: PoHRecord)
        requires
            old(self).tick_count < u64::MAX,
            spec_event_fits(spec_event_bytes(event_data)),
        ensures
            record@ == spec_tick_record(
                old(self)@,
                (TickInput {
                    event: spec_event_bytes(event_data),
                    clock_ms: record.timestamp_ms as nat,
                }),
            ),
            final(self)@ == spec_tick_state(
                old(self)@,
                (TickInput {
                    event: spec_event_bytes(event_data),
                    clock_ms: record.timestamp_ms as nat,
                }),
            ),
            record.timestamp_ms >= old(self).last_timestamp_ms,
            final(self).start_time == old(self).start_time,
    {
        self.extend(event_data);
        let elapsed: Duration = self.start_time.elapsed();
        let millis: u128 = elapsed.as_millis();
        let clock_ms: u64 = #[verifier::truncate] (millis as u64);
        self.emit(event_data, clock_ms)
    }

    /// One tick for a given reading of the clock, in milliseconds since the
    /// engine's start: the record and the state that follow are decided by
    /// the engine's state, the event and the reading alone.
    pub fn tick_at(&mut self, event_data: Option<&[u8]>, clock_ms: u64) -> (record: PoHRecord)
        requires
            old(self).tick_count < u64::MAX,
            spec_event_fits(spec_event_bytes(event_data)),
        ensures
            record@ == spec_tick_record(
                old(self)@,
                (TickInput { event: spec_event_bytes(event_data), clock_ms: clock_ms as nat }),
            ),
            final(self)@ == spec_tick_state(
                old(self)@,
                (TickInput { event: spec_event_bytes(event_data), clock_ms: clock_ms as nat }),
            ),
            final(self).start_time == old(self).start_time,
    {
        self.extend(event_data);
        self.emit(event_data, clock_ms)
    }

    /// The first half of a tick: mixes the event into the chain state, if
    /// there is one, and applies the tick's sequential hashes.
    pub fn extend(&mut self, event_data: Option<&[u8]>)
        requires
            spec_event_fits(spec_event_bytes(event_data)),
        ensures
            final(self).current_hash@ == spec_expected_hash(
                old(self).algorithm,
                old(self).current_hash@,
                DEFAULT_HASHES_PER_TICK as nat,
                spec_event_bytes(event_data),
            ),
            final(self).algorithm == old(self).algorithm,
            final(self).tick_count == old(self).tick_count,
            final(self).last_timestamp_ms == old(self).last_timestamp_ms,
            final(self).start_time == old(self).start_time,
    {
        if let Some(event) = event_data {
            self.current_hash = hash_with_data(self.algorithm, &self.current_hash, event);
        }
        self.current_hash = extend_hash_chain(
            self.algorithm,
            &self.current_hash,
            DEFAULT_HASHES_PER_TICK,
        );
    }

    /// The second half of a tick, for a given reading of the clock: emits the
    /// record of the extended chain state and moves on to the next tick index.
    pub fn emit(&mut self, event_data: Option<&[u8]>, clock_ms: u64) -> (record: PoHRecord)
        requires
            old(self).tick_count < u64::MAX,
        ensures
            record.tick_index == old(self).tick_count,
            record.slot_index == old(self).tick_count / DEFAULT_TICKS_PER_SLOT,
            record.epoch_index == (old(self).tick_count / DEFAULT_TICKS_PER_SLOT)
                / DEFAULT_SLOTS_PER_EPOCH,
            record.hash@ == old(self).current_hash@,
            record.timestamp_ms as nat == spec_timestamp(
                old(self).last_timestamp_ms as nat,
                clock_ms as nat,
            ),
            record@.event == spec_event_bytes(event_data),
            final(self).current_hash == old(self).current_hash,
            final(self).algorithm == old(self).algorithm,
            final(self).tick_count == old(self).tick_count + 1,
            final(self).last_timestamp_ms == record.timestamp_ms,
            final(self).start_time == old(self).start_time,
    {
        let tick_index: u64 = self.tick_count;
        let slot_index: u64 = tick_index / DEFAULT_TICKS_PER_SLOT;
        let epoch_index: u64 = slot_index / DEFAULT_SLOTS_PER_EPOCH;
        let timestamp_ms: u64 = if clock_ms < self.last_timestamp_ms {
            self.last_timestamp_ms
        } else {
            clock_ms
        };
        let event: Option<Vec<u8>> = match event_data {
            Some(data) => Some(vstd::slice::slice_to_vec(data)),
            None => None,
        };
        let record = PoHRecord {
            tick_index,
            slot_index,
            epoch_index,
            hash: self.current_hash,
            timestamp_ms,
            event,
        };
        self.tick_count = self.tick_count + 1;
        self.last_timestamp_ms = timestamp_ms;
        record
    }
}

} // verus!
