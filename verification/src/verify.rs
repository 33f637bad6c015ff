//! The verifier: re-derives a chain from its records and checks their
//! indices and their timestamps.

use crate::constants::{
    DEFAULT_HASHES_PER_TICK, DEFAULT_SLOTS_PER_EPOCH, DEFAULT_TICKS_PER_SLOT,
    DEFAULT_TIMESTAMP_TOLERANCE_MS, DEFAULT_US_PER_TICK,
};
use crate::engine::PoH;
use crate::hash::{
    spec_event_bytes, spec_event_fits, spec_expected_hash, verify_hash_chain, MAX_HASH_INPUT_LEN,
};
use crate::record::{spec_record_views, PoHRecord, RecordView};
use vstd::prelude::*;

verus! {

/// Whether `curr` may follow `prev` in a chain: its hash is the one the chain
/// reaches from `prev`'s hash through `curr`'s event and one tick of hashes,
/// its tick index is the next one, and its slot and epoch are those of its
/// tick index. Nothing follows the largest tick index, and an event too long
/// to hash follows nothing.
pub open spec fn spec_link_valid(algorithm: u8, prev: RecordView, curr: RecordView) -> bool {
    &&& spec_event_fits(curr.event)
    &&& spec_expected_hash(algorithm, prev.hash, DEFAULT_HASHES_PER_TICK as nat, curr.event)
        == curr.hash
    &&& curr.tick_index == prev.tick_index + 1
    &&& curr.slot_index == curr.tick_index / (DEFAULT_TICKS_PER_SLOT as nat)
    &&& curr.epoch_index == curr.tick_index / ((DEFAULT_TICKS_PER_SLOT * DEFAULT_SLOTS_PER_EPOCH) as nat)
}

/// Whether a run of records is a chain: it is not empty and every record but
/// the first may follow the one before it.
pub open spec fn spec_verify_records(algorithm: u8, records: Seq<RecordView>) -> bool {
    &&& records.len() > 0
    &&& forall|i: int|
        1 <= i < records.len() ==> spec_link_valid(algorithm, records[i - 1], #[trigger] records[i])
}

/// The time expected of the record at `position`, in microseconds: the
/// first timestamp and `position` tick durations after it.
pub open spec fn spec_expected_timestamp_us(first_timestamp_ms: nat, position: nat) -> nat {
    1000 * first_timestamp_ms + position * (DEFAULT_US_PER_TICK as nat)
}

/// Whether the timestamp of the record at `position` lies within
/// `tolerance_ms` of the time expected there. The band is measured in
/// microseconds, so that a quarter of a millisecond counts.
pub open spec fn spec_timestamp_within(
    records: Seq<RecordView>,
    position: int,
    tolerance_ms: nat,
) -> bool {
    let expected_us = spec_expected_timestamp_us(records[0].timestamp_ms, position as nat);
    let actual_us = 1000 * records[position].timestamp_ms;
    expected_us - 1000 * tolerance_ms <= actual_us <= expected_us + 1000 * tolerance_ms
}

/// Whether a run of records keeps the cadence: it is not empty and every
/// timestamp lies within the tolerance of its expected value.
pub open spec fn spec_verify_timestamps(records: Seq<RecordView>, tolerance_ms: nat) -> bool {
    &&& records.len() > 0
    &&& forall|i: int|
        0 <= i < records.len() ==> #[trigger] spec_timestamp_within(records, i, tolerance_ms)
}

/// The time expected of the record at `position` after a first timestamp
/// of `first_timestamp_ms`, in microseconds.
pub fn expected_timestamp_us(first_timestamp_ms: u64, position: usize) -> (expected_us: u128)
    ensures
        expected_us == spec_expected_timestamp_us(first_timestamp_ms as nat, position as nat),
        expected_us <= 7250 * u64::MAX,
{
    assert(DEFAULT_US_PER_TICK == 6250);
    let first_us: u128 = (first_timestamp_ms as u128) * 1000;
    let offset_us: u128 = (position as u128) * (DEFAULT_US_PER_TICK as u128);
    first_us + offset_us
}

/// Checks one adjacent pair of records.
pub fn verify_link(algorithm: u8, prev: &PoHRecord, curr: &PoHRecord) -> (valid: bool)
    ensures
        valid == spec_link_valid(algorithm, prev@, curr@),
{
    let event_data: Option<&[u8]> = curr.event_bytes();
    let fits: bool = match event_data {
        Some(data) => data.len() as u64 <= MAX_HASH_INPUT_LEN - 32,
        None => true,
    };
    if !fits {
        return false;
    }
    if !verify_hash_chain(algorithm, &prev.hash, &curr.hash, DEFAULT_HASHES_PER_TICK, event_data) {
        return false;
    }
    let tick_index_valid: bool = match prev.tick_index.checked_add(1) {
        Some(next) => curr.tick_index == next,
        None => false,
    };
    let slot_index_valid: bool = curr.slot_index == curr.tick_index / DEFAULT_TICKS_PER_SLOT;
    let epoch_valid: bool = curr.epoch_index == curr.tick_index / (DEFAULT_TICKS_PER_SLOT
        * DEFAULT_SLOTS_PER_EPOCH);
    tick_index_valid && slot_index_valid && epoch_valid
}

/// Re-derives the chain from the records and checks their indices. An empty
/// run is not valid. Stops at the first pair that fails.
pub fn verify_records(algorithm: u8, records: &[PoHRecord]) -> (valid: bool)
    ensures
        valid == spec_verify_records(algorithm, spec_record_views(records@)),
{
    if records.len() == 0 {
        return false;
    }
    let ghost views = spec_record_views(records@);
    let mut i: usize = 1;
    while i < records.len()
        invariant
            1 <= i <= records.len(),
            views == spec_record_views(records@),
            forall|j: int| 1 <= j < i ==> spec_link_valid(algorithm, views[j - 1], #[trigger] views[j]),
        decreases records.len() - i,
    {
        if !verify_link(algorithm, &records[i - 1], &records[i]) {
            assert(!spec_link_valid(algorithm, views[i - 1], views[i as int]));
            return false;
        }
        i = i + 1;
    }
    true
}

/// The position of the first record whose timestamp lies outside the
/// tolerance, if there is one.
pub fn find_timestamp_mismatch(records: &[PoHRecord], tolerance_ms: u64) -> (found: Option<usize>)
    ensures
        match found {
            Some(position) => {
                &&& position < records@.len()
                &&& !spec_timestamp_within(
                    spec_record_views(records@),
                    position as int,
                    tolerance_ms as nat,
                )
                &&& forall|j: int|
                    0 <= j < position ==> #[trigger] spec_timestamp_within(
                        spec_record_views(records@),
                        j,
                        tolerance_ms as nat,
                    )
            },
            None => forall|j: int|
                0 <= j < records@.len() ==> #[trigger] spec_timestamp_within(
                    spec_record_views(records@),
                    j,
                    tolerance_ms as nat,
                ),
        },
{
    if records.len() == 0 {
        return None;
    }
    let ghost views = spec_record_views(records@);
    let first_timestamp: u64 = records[0].timestamp_ms;
    let mut i: usize = 0;
    while i < records.len()
        invariant
            0 <= i <= records.len(),
            records@.len() > 0,
            views == spec_record_views(records@),
            first_timestamp == records@[0].timestamp_ms,
            forall|j: int| 0 <= j < i ==> #[trigger] spec_timestamp_within(views, j, tolerance_ms as nat),
        decreases records.len() - i,
    {
        let timestamp: u64 = records[i].timestamp_ms;
        let expected_us: u128 = expected_timestamp_us(first_timestamp, i);
        let actual_us: u128 = (timestamp as u128) * 1000;
        let tolerance_us: u128 = (tolerance_ms as u128) * 1000;
        let too_early: bool = actual_us + tolerance_us < expected_us;
        let too_late: bool = actual_us > expected_us + tolerance_us;
        assert((too_early || too_late) == !spec_timestamp_within(views, i as int, tolerance_ms as nat));
        if too_early || too_late {
            return Some(i);
        }
        i = i + 1;
    }
    None
}

/// Checks every timestamp against the cadence, anchored at the first record.
/// An empty run is not valid.
pub fn verify_timestamps(records: &[PoHRecord], tolerance_ms: u64) -> (valid: bool)
    ensures
        valid == spec_verify_timestamps(spec_record_views(records@), tolerance_ms as nat),
{
    if records.len() == 0 {
        return false;
    }
    let found: Option<usize> = find_timestamp_mismatch(records, tolerance_ms);
    found.is_none()
}

impl PoH {
    /// Re-derives the chain from the records under the given algorithm.
    pub fn verify_records(algorithm: u8, records: &[PoHRecord]) -> (valid: bool)
        ensures
            valid == spec_verify_records(algorithm, spec_record_views(records@)),
    {
        verify_records(algorithm, records)
    }

    /// Checks the timestamps of the records with the default tolerance.
    pub fn verify_timestamps(records: &[PoHRecord]) -> (valid: bool)
        ensures
            valid == spec_verify_timestamps(
                spec_record_views(records@),
                DEFAULT_TIMESTAMP_TOLERANCE_MS as nat,
            ),
    {
        verify_timestamps(records, DEFAULT_TIMESTAMP_TOLERANCE_MS)
    }
}

} // verus!
