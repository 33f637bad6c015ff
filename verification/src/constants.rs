//! Timing and sizing parameters of the timekeeper.

use vstd::prelude::*;

verus! {

/// Identifier of the hash algorithm that is selected when nothing else is: SHA-256.
pub const DEFAULT_HASH: u8 = 0;

/// Seconds in a day.
pub const DEFAULT_SECONDS_PER_DAY: u64 = 24 * 60 * 60;

/// Ticks emitted per second of wall time.
pub const DEFAULT_TICKS_PER_SECOND: u64 = 160;

/// Ticks emitted per day.
pub const DEFAULT_TICKS_PER_DAY: u64 = DEFAULT_TICKS_PER_SECOND * DEFAULT_SECONDS_PER_DAY;

/// Whole milliseconds in a tick.
pub const DEFAULT_MS_PER_TICK: u64 = 1_000 / DEFAULT_TICKS_PER_SECOND;

/// The fraction of a tick, in microseconds, that the whole milliseconds leave out.
pub const DEFAULT_US_TOLERANCE_PER_TICK: u64 = 250;

/// Target wall duration of a tick in microseconds.
pub const DEFAULT_US_PER_TICK: u64 = (DEFAULT_MS_PER_TICK * 1000) + DEFAULT_US_TOLERANCE_PER_TICK;

/// Consecutive ticks that form a slot.
pub const DEFAULT_TICKS_PER_SLOT: u64 = 64;

/// Sequential hashes a reference machine computes per second.
pub const DEFAULT_HASHES_PER_SECOND: u64 = 2_000_000;

/// Sequential hashes that make up one tick.
pub const DEFAULT_HASHES_PER_TICK: u64 = DEFAULT_HASHES_PER_SECOND / DEFAULT_TICKS_PER_SECOND;

/// Target wall duration of a slot in milliseconds.
pub const DEFAULT_MS_PER_SLOT: u64 = 1_000 * DEFAULT_TICKS_PER_SLOT / DEFAULT_TICKS_PER_SECOND;

/// Consecutive slots that form an epoch.
pub const DEFAULT_SLOTS_PER_EPOCH: u64 = 2 * DEFAULT_TICKS_PER_DAY / DEFAULT_TICKS_PER_SLOT;

/// Slots per epoch on a development network.
pub const DEFAULT_DEV_SLOTS_PER_EPOCH: u64 = 8_192;

/// Consecutive slots that one leader keeps.
pub const DEFAULT_NUM_CONSECUTIVE_LEADER_SLOTS: u64 = 4;

/// Records the channel between scheduler and consumer can hold.
pub const DEFAULT_CHANNEL_CAPACITY: usize = 1_000;

/// Records the scheduler collects before it hands them on.
pub const DEFAULT_BATCH_SIZE: usize = 64;

/// Residual wait, in microseconds, below which the scheduler spins instead of sleeping.
pub const DEFAULT_SPINLOCK_THRESHOLD_US: u64 = 250;

/// Drift, in milliseconds, that the timestamp check grants a record.
pub const DEFAULT_TIMESTAMP_TOLERANCE_MS: u64 = 8;

/// Ticks between two synthetic events of the scheduler.
pub const DEFAULT_EVENT_INTERVAL: u64 = 10;

} // verus!
