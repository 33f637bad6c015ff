//! The record that one tick of the engine emits.

use crate::serialization::{encode_hash, spec_hex_encode};
use crate::text::{decimal_text, spec_decimal_text};
use vstd::prelude::*;
use vstd::string::{StrSliceExecFns, StringExecFns};

verus! {

/// The immutable output of one tick.
#[derive(Debug, Clone)]
pub struct PoHRecord {
    /// Position of the tick in the chain, counted from 0.
    pub tick_index: u64,
    /// The slot the tick falls in.
    pub slot_index: u64,
    /// The epoch the tick falls in.
    pub epoch_index: u64,
    /// The chain state after the tick.
    pub hash: [u8; 32],
    /// Milliseconds between the engine's start and the end of the tick.
    pub timestamp_ms: u64,
    /// The event stamped by this tick, if it stamped one.
    pub event: Option<Vec<u8>>,
}

/// A record as a mathematical value.
pub struct RecordView {
    pub tick_index: nat,
    pub slot_index: nat,
    pub epoch_index: nat,
    pub hash: Seq<u8>,
    pub timestamp_ms: nat,
    pub event: Option<Seq<u8>>,
}

impl View for PoHRecord {
    type V = RecordView;

    open spec fn view(&self) -> RecordView {
        RecordView {
            tick_index: self.tick_index as nat,
            slot_index: self.slot_index as nat,
            epoch_index: self.epoch_index as nat,
            hash: self.hash@,
            timestamp_ms: self.timestamp_ms as nat,
            event: match self.event {
                Some(data) => Some(data@),
                None => None,
            },
        }
    }
}

/// The mathematical values of a run of records.
pub open spec fn spec_record_views(records: Seq<PoHRecord>) -> Seq<RecordView> {
    Seq::new(records.len(), |i: int| records[i]@)
}

/// Number of hexadecimal characters of the hash that the one-line text shows.
pub const HASH_TEXT_LEN: usize = 17;

/// A record on one line: its epoch, slot, tick and timestamp in decimal and
/// the first 17 hexadecimal characters of its hash.
pub open spec fn spec_record_text(record: RecordView) -> Seq<char> {
    "Epoch "@ + spec_decimal_text(record.epoch_index) + ", Slot "@ + spec_decimal_text(
        record.slot_index,
    ) + ", Tick "@ + spec_decimal_text(record.tick_index) + ", Timestamp "@ + spec_decimal_text(
        record.timestamp_ms,
    ) + "ms, Hash 0x"@ + spec_hex_encode(record.hash).subrange(0, HASH_TEXT_LEN as int) + "..."@
}

impl PoHRecord {
    /// Writes the record on one line.
    pub fn to_text(&self) -> (text: String)
        ensures
            text@ == spec_record_text(self@),
    {
        let hash_text: String = encode_hash(&self.hash);
        let mut text: String = String::from_str("Epoch ");
        text.append(decimal_text(self.epoch_index).as_str());
        text.append(", Slot ");
        text.append(decimal_text(self.slot_index).as_str());
        text.append(", Tick ");
        text.append(decimal_text(self.tick_index).as_str());
        text.append(", Timestamp ");
        text.append(decimal_text(self.timestamp_ms).as_str());
        text.append("ms, Hash 0x");
        text.append(hash_text.as_str().substring_char(0, HASH_TEXT_LEN));
        text.append("...");
        text
    }

    /// The event of the record as borrowed bytes.
    pub fn event_bytes(&self) -> (event: Option<&[u8]>)
        ensures
            crate::hash::spec_event_bytes(event) == self@.event,
    {
        match &self.event {
            Some(data) => Some(data.as_slice()),
            None => None,
        }
    }
}

} // verus!
