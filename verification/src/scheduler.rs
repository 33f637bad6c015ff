//! The decisions of the tick scheduler: which ticks stamp a synthetic event,
//! when a batch of records is handed on, and how the wait for the next tick's
//! target time is spent. The worker that runs the schedule performs the waits
//! and the sends.

use crate::constants::{
    DEFAULT_BATCH_SIZE, DEFAULT_EVENT_INTERVAL, DEFAULT_SPINLOCK_THRESHOLD_US, DEFAULT_US_PER_TICK,
};
use crate::engine::{
    spec_run_records, spec_run_state, spec_tick_record, spec_tick_state, PoH, TickInput,
};
use crate::hash::spec_event_fits;
use crate::lemmas::{
    lemma_run_extends, lemma_run_records_verify_from, lemma_run_state_counts,
    lemma_run_timestamps_monotonic,
};
use crate::record::{spec_record_views, PoHRecord, RecordView};
use crate::verify::spec_verify_records;
use crate::text::{decimal_digits, lemma_decimal_len, spec_decimal};
use vstd::prelude::*;

verus! {

/// How the worker spends the time until the next tick's target.
#[derive(Debug, Clone, Copy, PartialEq, Eq, Structural)]
pub enum Pace {
    /// The target time has passed: go on at once.
    Proceed,
    /// The residual is below the threshold: busy-wait on the clock.
    Spin { wait_us: u64 },
    /// Suspend until about the target time.
    Sleep { wait_us: u64 },
}

/// The progress of one schedule.
pub struct Scheduler {
    /// Index of the next tick of the schedule.
    pub next_index: u64,
    /// Number of ticks after which the schedule ends.
    pub max_ticks: u64,
    /// Microseconds from the schedule's start at which the next tick is due.
    pub next_tick_target_us: u64,
}

/// The bytes of `Event at tick `, which every synthetic event starts with.
pub open spec fn spec_event_prefix() -> Seq<u8> {
    seq![69u8, 118, 101, 110, 116, 32, 97, 116, 32, 116, 105, 99, 107, 32]
}

/// The synthetic event of tick `index`: the prefix and the index in decimal.
pub open spec fn spec_event_label(index: u64) -> Seq<u8> {
    spec_event_prefix() + spec_decimal(index as nat)
}

/// What the schedule stamps at tick `index`: a synthetic event at every
/// tenth tick, nothing at the others.
pub open spec fn spec_scheduled_event(index: u64) -> Option<Seq<u8>> {
    if index % DEFAULT_EVENT_INTERVAL == 0 {
        Some(spec_event_label(index))
    } else {
        None
    }
}

/// What the ticks of a schedule were given, from tick `first_index` on: the
/// scheduled event of each and, for the clock, the timestamp its record got.
pub open spec fn spec_scheduled_inputs(first_index: u64, records: Seq<RecordView>) -> Seq<TickInput> {
    Seq::new(
        records.len(),
        |i: int|
            TickInput {
                event: spec_scheduled_event((first_index + i) as u64),
                clock_ms: records[i].timestamp_ms,
            },
    )
}

/// The pace for a tick that ended `elapsed_us` after the start and whose
/// target lies at `target_us`.
pub open spec fn spec_pace(elapsed_us: u64, target_us: u64) -> Pace {
    if elapsed_us >= target_us {
        Pace::Proceed
    } else if target_us - elapsed_us < DEFAULT_SPINLOCK_THRESHOLD_US {
        Pace::Spin { wait_us: (target_us - elapsed_us) as u64 }
    } else {
        Pace::Sleep { wait_us: (target_us - elapsed_us) as u64 }
    }
}

/// The target after `target_us`: one tick later, held within 64 bits.
pub open spec fn spec_next_target(target_us: u64) -> u64 {
    if target_us + DEFAULT_US_PER_TICK <= u64::MAX {
        (target_us + DEFAULT_US_PER_TICK) as u64
    } else {
        u64::MAX
    }
}

/// Whether tick `index` stamps a synthetic event.
pub fn is_event_tick(index: u64) -> (stamps: bool)
    ensures
        stamps == (index % DEFAULT_EVENT_INTERVAL == 0),
{
    index % DEFAULT_EVENT_INTERVAL == 0
}

/// The synthetic event of tick `index`.
pub fn event_label(index: u64) -> (label: Vec<u8>)
    ensures
        label@ == spec_event_label(index),
        label@.len() <= 34,
{
    let prefix: [u8; 14] = [69, 118, 101, 110, 116, 32, 97, 116, 32, 116, 105, 99, 107, 32];
    let digits: Vec<u8> = decimal_digits(index);
    proof {
        lemma_decimal_len(index as nat);
    }
    let mut label: Vec<u8> = Vec::new();
    label.extend_from_slice(prefix.as_slice());
    label.extend_from_slice(digits.as_slice());
    assert(label@ =~= spec_event_label(index));
    label
}

/// Every scheduled event is short enough to hash.
pub proof fn lemma_scheduled_event_fits(index: u64)
    ensures
        spec_event_fits(spec_scheduled_event(index)),
{
    lemma_decimal_len(index as nat);
}

impl Scheduler {
    /// A schedule of `max_ticks` ticks, whose first tick is due one tick
    /// duration after the start.
    pub fn new(max_ticks: u64) -> (schedule: Scheduler)
        ensures
            schedule.next_index == 0,
            schedule.max_ticks == max_ticks,
            schedule.next_tick_target_us == DEFAULT_US_PER_TICK,
    {
        Scheduler { next_index: 0, max_ticks, next_tick_target_us: DEFAULT_US_PER_TICK }
    }

    /// Whether every tick of the schedule was produced.
    pub fn is_done(&self) -> (done: bool)
        ensures
            done == (self.next_index >= self.max_ticks),
    {
        self.next_index >= self.max_ticks
    }

    /// Produces the next tick of the schedule on the engine: every tenth tick
    /// stamps its synthetic event, the others stamp nothing.
    pub fn produce(&mut self, engine: &mut PoH) -> (record: PoHRecord)
        requires
            old(self).next_index < old(self).max_ticks,
            old(engine).tick_count < u64::MAX,
        ensures
            record@ == spec_tick_record(
                old(engine)@,
                (TickInput {
                    event: spec_scheduled_event(old(self).next_index),
                    clock_ms: record.timestamp_ms as nat,
                }),
            ),
            final(engine)@ == spec_tick_state(
                old(engine)@,
                (TickInput {
                    event: spec_scheduled_event(old(self).next_index),
                    clock_ms: record.timestamp_ms as nat,
                }),
            ),
            record.timestamp_ms >= old(engine).last_timestamp_ms,
            final(self).next_index == old(self).next_index + 1,
            final(self).max_ticks == old(self).max_ticks,
            final(self).next_tick_target_us == old(self).next_tick_target_us,
    {
        let index: u64 = self.next_index;
        self.next_index = index + 1;
        if is_event_tick(index) {
            let label: Vec<u8> = event_label(index);
            engine.insert_event(label.as_slice())
        } else {
            engine.next_tick()
        }
    }

    /// Produces every tick that the schedule has left, one after the other
    /// and without waiting. The records are those of a run of the engine over
    /// the scheduled events, and they form a valid chain.
    pub fn produce_remaining(&mut self, engine: &mut PoH) -> (records: Vec<PoHRecord>)
        requires
            old(self).next_index <= old(self).max_ticks,
            old(engine).tick_count + (old(self).max_ticks - old(self).next_index) <= u64::MAX,
        ensures
            records@.len() == old(self).max_ticks - old(self).next_index,
            spec_record_views(records@) == spec_run_records(
                old(engine)@,
                spec_scheduled_inputs(old(self).next_index, spec_record_views(records@)),
            ),
            final(engine)@ == spec_run_state(
                old(engine)@,
                spec_scheduled_inputs(old(self).next_index, spec_record_views(records@)),
            ),
            records@.len() > 0 ==> spec_verify_records(
                old(engine).algorithm,
                spec_record_views(records@),
            ),
            forall|i: int|
                0 <= i < records@.len() ==> (#[trigger] records@[i]).tick_index == old(
                    engine,
                ).tick_count + i,
            forall|i: int, j: int|
                0 <= i <= j < records@.len() ==> (#[trigger] records@[i]).timestamp_ms <= (
                #[trigger] records@[j]).timestamp_ms,
            final(self).next_index == old(self).max_ticks,
            final(self).max_ticks == old(self).max_ticks,
            final(self).next_tick_target_us == old(self).next_tick_target_us,
    {
        let ghost start = engine@;
        let ghost first_index = self.next_index;
        let ghost mut inputs: Seq<TickInput> = Seq::empty();
        let mut records: Vec<PoHRecord> = Vec::new();
        assert(spec_run_records(start, inputs) =~= spec_record_views(records@));
        assert(spec_scheduled_inputs(first_index, spec_record_views(records@)) =~= inputs);
        while self.next_index < self.max_ticks
            invariant
                first_index <= self.next_index <= self.max_ticks,
                self.max_ticks == old(self).max_ticks,
                self.next_tick_target_us == old(self).next_tick_target_us,
                records@.len() == self.next_index - first_index,
                start.tick_count + (self.max_ticks - first_index) <= u64::MAX,
                engine@ == spec_run_state(start, inputs),
                engine.tick_count == start.tick_count + records@.len(),
                spec_record_views(records@) == spec_run_records(start, inputs),
                inputs == spec_scheduled_inputs(first_index, spec_record_views(records@)),
            decreases self.max_ticks - self.next_index,
        {
            let ghost index = self.next_index;
            let ghost views = spec_record_views(records@);
            let record: PoHRecord = self.produce(engine);
            let ghost input = TickInput {
                event: spec_scheduled_event(index),
                clock_ms: record.timestamp_ms as nat,
            };
            proof {
                lemma_run_extends(start, inputs, input);
            }
            records.push(record);
            proof {
                assert(spec_record_views(records@) =~= views.push(record@));
                assert(spec_scheduled_inputs(first_index, spec_record_views(records@))
                    =~= inputs.push(input));
                inputs = inputs.push(input);
            }
        }
        proof {
            if records@.len() > 0 {
                assert forall|i: int| 0 <= i < inputs.len() implies spec_event_fits(
                    #[trigger] inputs[i].event,
                ) by {
                    lemma_scheduled_event_fits((first_index + i) as u64);
                }
                lemma_run_records_verify_from(start, inputs);
            }
            let views = spec_record_views(records@);
            assert forall|i: int| 0 <= i < records@.len() implies (#[trigger] records@[i]).tick_index
                == start.tick_count + i by {
                lemma_run_state_counts(start, inputs.take(i));
                assert(views[i] == records@[i]@);
            }
            assert forall|i: int, j: int| 0 <= i <= j < records@.len() implies (
            #[trigger] records@[i]).timestamp_ms <= (#[trigger] records@[j]).timestamp_ms by {
                lemma_run_timestamps_monotonic(start, inputs, i, j);
                assert(views[i] == records@[i]@);
                assert(views[j] == records@[j]@);
            }
        }
        records
    }

    /// Decides how to wait for the target of the tick just produced, given the
    /// microseconds elapsed since the start, and moves the target one tick on.
    pub fn pace(&mut self, elapsed_us: u64) -> (pace: Pace)
        ensures
            pace == spec_pace(elapsed_us, old(self).next_tick_target_us),
            final(self).next_tick_target_us == spec_next_target(old(self).next_tick_target_us),
            final(self).next_index == old(self).next_index,
            final(self).max_ticks == old(self).max_ticks,
    {
        let target_us: u64 = self.next_tick_target_us;
        self.next_tick_target_us = target_us.saturating_add(DEFAULT_US_PER_TICK);
        pace_for(elapsed_us, target_us)
    }
}

/// The pace for a tick that ended `elapsed_us` after the start and whose
/// target lies at `target_us`: nothing to wait for once the target has
/// passed, a spin below the threshold, a sleep otherwise.
pub fn pace_for(elapsed_us: u64, target_us: u64) -> (pace: Pace)
    ensures
        pace == spec_pace(elapsed_us, target_us),
{
    if elapsed_us < target_us {
        let sleep_us: u64 = target_us - elapsed_us;
        if sleep_us < DEFAULT_SPINLOCK_THRESHOLD_US {
            Pace::Spin { wait_us: sleep_us }
        } else {
            Pace::Sleep { wait_us: sleep_us }
        }
    } else {
        Pace::Proceed
    }
}

/// Whether a batch of `batch_len` records is handed on now.
pub fn batch_ready(batch_len: usize) -> (ready: bool)
    ensures
        ready == (batch_len >= DEFAULT_BATCH_SIZE),
{
    batch_len >= DEFAULT_BATCH_SIZE
}

/// The target of the tick at `index`, counted from the schedule's start: the
/// end of that tick's duration.
pub open spec fn spec_target_of(index: nat) -> nat {
    let due = (index + 1) * (DEFAULT_US_PER_TICK as nat);
    if due <= u64::MAX {
        due
    } else {
        u64::MAX as nat
    }
}

/// Moving the target on from the tick at `index` gives the target of the
/// tick after it.
pub proof fn lemma_next_target(index: nat, target_us: u64)
    requires
        target_us == spec_target_of(index),
    ensures
        spec_next_target(target_us) == spec_target_of(index + 1),
{
    assert((index + 2) * (DEFAULT_US_PER_TICK as nat) == (index + 1) * (DEFAULT_US_PER_TICK as nat)
        + DEFAULT_US_PER_TICK) by (nonlinear_arith);
}

} // verus!
