//! What holds of every run of an engine and of every verified chain.

use crate::constants::{DEFAULT_HASHES_PER_TICK, DEFAULT_SLOTS_PER_EPOCH, DEFAULT_TICKS_PER_SLOT};
use crate::engine::{
    spec_initial, spec_run_records, spec_run_state, spec_tick_record, spec_tick_state, EngineView,
    TickInput,
};
use crate::hash::{spec_event_fits, spec_expected_hash};
use crate::record::{spec_record_views, PoHRecord, RecordView};
use crate::verify::{spec_link_valid, spec_verify_records};
use vstd::prelude::*;

verus! {

/// A run keeps the algorithm of its start and counts one tick per input.
pub proof fn lemma_run_state_counts(start: EngineView, inputs: Seq<TickInput>)
    ensures
        spec_run_state(start, inputs).algorithm == start.algorithm,
        spec_run_state(start, inputs).tick_count == start.tick_count + inputs.len(),
        spec_run_state(start, inputs).last_timestamp_ms >= start.last_timestamp_ms,
    decreases inputs.len(),
{
    if inputs.len() > 0 {
        lemma_run_state_counts(start, inputs.drop_last());
    }
}

/// The state after `i + 1` ticks is the state after `i` ticks advanced by
/// the input at position `i`.
pub proof fn lemma_run_state_unfold(start: EngineView, inputs: Seq<TickInput>, i: int)
    requires
        0 <= i < inputs.len(),
    ensures
        spec_run_state(start, inputs.take(i + 1)) == spec_tick_state(
            spec_run_state(start, inputs.take(i)),
            inputs[i],
        ),
{
    assert(inputs.take(i + 1).drop_last() =~= inputs.take(i));
    assert(inputs.take(i + 1).last() == inputs[i]);
}

/// One more tick extends a run: the state it leaves is the state of the
/// longer run, and its record is the last record of the longer run, after
/// the records of the shorter one.
pub proof fn lemma_run_extends(start: EngineView, inputs: Seq<TickInput>, input: TickInput)
    ensures
        spec_run_state(start, inputs.push(input)) == spec_tick_state(
            spec_run_state(start, inputs),
            input,
        ),
        spec_run_records(start, inputs.push(input)) == spec_run_records(start, inputs).push(
            spec_tick_record(spec_run_state(start, inputs), input),
        ),
{
    let longer = inputs.push(input);
    assert(longer.drop_last() =~= inputs);
    assert(longer.last() == input);
    assert forall|i: int| 0 <= i < longer.len() implies spec_run_records(start, longer)[i]
        == spec_run_records(start, inputs).push(
        spec_tick_record(spec_run_state(start, inputs), input),
    )[i] by {
        if i < inputs.len() {
            assert(longer.take(i) =~= inputs.take(i));
        } else {
            assert(longer.take(i) =~= inputs);
        }
    }
    assert(spec_run_records(start, longer) =~= spec_run_records(start, inputs).push(
        spec_tick_record(spec_run_state(start, inputs), input),
    ));
}

/// The records of an engine that starts from a seed carry their position as
/// their tick index.
pub proof fn lemma_run_tick_indices(algorithm: u8, seed: Seq<u8>, inputs: Seq<TickInput>)
    ensures
        forall|i: int|
            0 <= i < inputs.len() ==> (#[trigger] spec_run_records(
                spec_initial(algorithm, seed),
                inputs,
            )[i]).tick_index == i,
{
    let start = spec_initial(algorithm, seed);
    assert forall|i: int| 0 <= i < inputs.len() implies (#[trigger] spec_run_records(
        start,
        inputs,
    )[i]).tick_index == i by {
        lemma_run_state_counts(start, inputs.take(i));
    }
}

/// The records of a run form a valid chain, whatever state the run started
/// from, as long as every event is short enough to hash and the tick indices
/// stay within 64 bits.
pub proof fn lemma_run_records_verify_from(start: EngineView, inputs: Seq<TickInput>)
    requires
        0 < inputs.len(),
        start.tick_count + inputs.len() <= u64::MAX,
        forall|i: int| 0 <= i < inputs.len() ==> spec_event_fits(#[trigger] inputs[i].event),
    ensures
        spec_verify_records(start.algorithm, spec_run_records(start, inputs)),
{
    let records = spec_run_records(start, inputs);
    assert forall|i: int| 1 <= i < records.len() implies spec_link_valid(
        start.algorithm,
        records[i - 1],
        #[trigger] records[i],
    ) by {
        lemma_run_state_counts(start, inputs.take(i - 1));
        lemma_run_state_counts(start, inputs.take(i));
        lemma_run_state_unfold(start, inputs, i - 1);
        assert(spec_event_fits(inputs[i].event));
        vstd::arithmetic::div_mod::lemma_div_denominator(
            start.tick_count + i,
            DEFAULT_TICKS_PER_SLOT as int,
            DEFAULT_SLOTS_PER_EPOCH as int,
        );
    }
}

/// The records of an engine form a valid chain, whatever the seed, the
/// events and the readings of the clock were, as long as every event is short
/// enough to hash and the tick indices stay within 64 bits.
pub proof fn lemma_run_records_verify(algorithm: u8, seed: Seq<u8>, inputs: Seq<TickInput>)
    requires
        0 < inputs.len() <= u64::MAX,
        forall|i: int| 0 <= i < inputs.len() ==> spec_event_fits(#[trigger] inputs[i].event),
    ensures
        spec_verify_records(algorithm, spec_run_records(spec_initial(algorithm, seed), inputs)),
{
    lemma_run_records_verify_from(spec_initial(algorithm, seed), inputs);
}

/// The timestamps of an engine's records never decrease, whatever the clock
/// read.
pub proof fn lemma_run_timestamps_monotonic(start: EngineView, inputs: Seq<TickInput>, i: int, j: int)
    requires
        0 <= i <= j < inputs.len(),
    ensures
        spec_run_records(start, inputs)[i].timestamp_ms <= spec_run_records(
            start,
            inputs,
        )[j].timestamp_ms,
    decreases j - i,
{
    if i < j {
        lemma_run_timestamps_monotonic(start, inputs, i, j - 1);
        lemma_run_state_unfold(start, inputs, j - 1);
    }
}

/// Two runs from the same start that stamp the same events reach the same
/// chain state and tick count, whatever their clocks read.
pub proof fn lemma_run_states_agree(start: EngineView, a: Seq<TickInput>, b: Seq<TickInput>)
    requires
        a.len() == b.len(),
        forall|i: int| 0 <= i < a.len() ==> a[i].event == b[i].event,
    ensures
        spec_run_state(start, a).algorithm == spec_run_state(start, b).algorithm,
        spec_run_state(start, a).current_hash == spec_run_state(start, b).current_hash,
        spec_run_state(start, a).tick_count == spec_run_state(start, b).tick_count,
    decreases a.len(),
{
    if a.len() > 0 {
        lemma_run_states_agree(start, a.drop_last(), b.drop_last());
    }
}

/// Two engines started from the same seed that stamp the same events emit
/// records that agree pair by pair in hash, tick index, slot index, epoch
/// index and event. Their timestamps may differ.
pub proof fn lemma_runs_deterministic(
    algorithm: u8,
    seed: Seq<u8>,
    a: Seq<TickInput>,
    b: Seq<TickInput>,
)
    requires
        a.len() == b.len(),
        forall|i: int| 0 <= i < a.len() ==> a[i].event == b[i].event,
    ensures
        forall|i: int|
            #![trigger spec_run_records(spec_initial(algorithm, seed), a)[i]]
            0 <= i < a.len() ==> {
                let first = spec_run_records(spec_initial(algorithm, seed), a)[i];
                let second = spec_run_records(spec_initial(algorithm, seed), b)[i];
                &&& first.hash == second.hash
                &&& first.tick_index == second.tick_index
                &&& first.slot_index == second.slot_index
                &&& first.epoch_index == second.epoch_index
                &&& first.event == second.event
            },
{
    let start = spec_initial(algorithm, seed);
    assert forall|i: int|
        #![trigger spec_run_records(start, a)[i]]
        0 <= i < a.len() implies {
        let first = spec_run_records(start, a)[i];
        let second = spec_run_records(start, b)[i];
        &&& first.hash == second.hash
        &&& first.tick_index == second.tick_index
        &&& first.slot_index == second.slot_index
        &&& first.epoch_index == second.epoch_index
        &&& first.event == second.event
    } by {
        lemma_run_states_agree(start, a.take(i), b.take(i));
    }
}

/// Verifying the same records twice gives the same answer: the answer is
/// decided by the algorithm and the values of the records alone.
pub proof fn lemma_verification_repeats(algorithm: u8, first: Seq<PoHRecord>, second: Seq<PoHRecord>)
    requires
        spec_record_views(first) == spec_record_views(second),
    ensures
        spec_verify_records(algorithm, spec_record_views(first)) == spec_verify_records(
            algorithm,
            spec_record_views(second),
        ),
{
}

/// In a valid chain, a record after the first that is replaced by one with
/// the same event and another hash, tick index, slot index or epoch index
/// makes the chain invalid.
pub proof fn lemma_field_corruption_detected(
    algorithm: u8,
    records: Seq<RecordView>,
    k: int,
    corrupted: RecordView,
)
    requires
        spec_verify_records(algorithm, records),
        0 < k < records.len(),
        corrupted.event == records[k].event,
        corrupted.hash != records[k].hash || corrupted.tick_index != records[k].tick_index
            || corrupted.slot_index != records[k].slot_index || corrupted.epoch_index
            != records[k].epoch_index,
    ensures
        !spec_verify_records(algorithm, records.update(k, corrupted)),
{
    let changed = records.update(k, corrupted);
    assert(spec_link_valid(algorithm, records[k - 1], records[k]));
    assert(changed[k - 1] == records[k - 1]);
    assert(changed[k] == corrupted);
    assert(!spec_link_valid(algorithm, changed[k - 1], changed[k]));
}

/// In a valid chain, a record after the first whose event is replaced makes
/// the chain invalid, provided the two events do not lead the chain from the
/// record before to the same hash.
pub proof fn lemma_event_corruption_detected(
    algorithm: u8,
    records: Seq<RecordView>,
    k: int,
    corrupted: RecordView,
)
    requires
        spec_verify_records(algorithm, records),
        0 < k < records.len(),
        corrupted.hash == records[k].hash,
        spec_expected_hash(
            algorithm,
            records[k - 1].hash,
            DEFAULT_HASHES_PER_TICK as nat,
            corrupted.event,
        ) != spec_expected_hash(
            algorithm,
            records[k - 1].hash,
            DEFAULT_HASHES_PER_TICK as nat,
            records[k].event,
        ),
    ensures
        !spec_verify_records(algorithm, records.update(k, corrupted)),
{
    let changed = records.update(k, corrupted);
    assert(spec_link_valid(algorithm, records[k - 1], records[k]));
    assert(changed[k - 1] == records[k - 1]);
    assert(changed[k] == corrupted);
    assert(!spec_link_valid(algorithm, changed[k - 1], changed[k]));
}

} // verus!
