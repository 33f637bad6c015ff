use timekeeper::constants::{DEFAULT_BATCH_SIZE, DEFAULT_HASH, DEFAULT_US_PER_TICK};
use timekeeper::engine::PoH;
use timekeeper::record::PoHRecord;
use timekeeper::scheduler::{batch_ready, event_label, is_event_tick, pace_for, Pace, Scheduler};
use timekeeper::text::{decimal_digits, decimal_text};
use timekeeper::verify::verify_records;

#[test]
fn decimal_digits_write_the_number() {
    assert_eq!(decimal_digits(0), b"0".to_vec());
    assert_eq!(decimal_digits(7), b"7".to_vec());
    assert_eq!(decimal_digits(10), b"10".to_vec());
    assert_eq!(decimal_digits(12_500), b"12500".to_vec());
    assert_eq!(decimal_digits(u64::MAX), b"18446744073709551615".to_vec());
    for n in [9u64, 99, 100, 101, 6_250, 999_999, 1_000_000] {
        assert_eq!(decimal_digits(n), n.to_string().into_bytes());
        assert_eq!(decimal_text(n), n.to_string());
    }
    assert_eq!(decimal_text(0), "0");
    assert_eq!(decimal_text(u64::MAX), "18446744073709551615");
}

#[test]
fn synthetic_events_name_their_tick() {
    assert_eq!(event_label(0), b"Event at tick 0".to_vec());
    assert_eq!(event_label(10), b"Event at tick 10".to_vec());
    assert_eq!(event_label(120), format!("Event at tick {}", 120).into_bytes());
    assert_eq!(event_label(u64::MAX), b"Event at tick 18446744073709551615".to_vec());
    assert!(is_event_tick(0));
    assert!(!is_event_tick(1));
    assert!(!is_event_tick(9));
    assert!(is_event_tick(10));
    assert!(is_event_tick(20));
    assert!(!is_event_tick(u64::MAX));
}

#[test]
fn pace_chooses_between_spin_and_sleep() {
    assert_eq!(pace_for(6_250, 6_250), Pace::Proceed);
    assert_eq!(pace_for(7_000, 6_250), Pace::Proceed);
    assert_eq!(pace_for(6_249, 6_250), Pace::Spin { wait_us: 1 });
    assert_eq!(pace_for(6_001, 6_250), Pace::Spin { wait_us: 249 });
    assert_eq!(pace_for(6_000, 6_250), Pace::Sleep { wait_us: 250 });
    assert_eq!(pace_for(0, 6_250), Pace::Sleep { wait_us: 6_250 });
    assert_eq!(pace_for(0, u64::MAX), Pace::Sleep { wait_us: u64::MAX });
}

#[test]
fn schedule_targets_advance_by_one_tick() {
    let mut schedule = Scheduler::new(3);
    assert_eq!(schedule.next_tick_target_us, DEFAULT_US_PER_TICK);
    assert_eq!(schedule.pace(1_000), Pace::Sleep { wait_us: 5_250 });
    assert_eq!(schedule.next_tick_target_us, 12_500);
    assert_eq!(schedule.pace(12_400), Pace::Spin { wait_us: 100 });
    assert_eq!(schedule.next_tick_target_us, 18_750);
    assert_eq!(schedule.pace(20_000), Pace::Proceed);
    assert_eq!(schedule.next_tick_target_us, 25_000);
    schedule.next_tick_target_us = u64::MAX - 10;
    assert_eq!(schedule.pace(u64::MAX), Pace::Proceed);
    assert_eq!(schedule.next_tick_target_us, u64::MAX);
}

#[test]
fn schedule_stamps_every_tenth_tick() {
    let seed: [u8; 64] = [b'0'; 64];
    let mut engine: PoH = PoH::new(DEFAULT_HASH, &seed);
    let mut schedule = Scheduler::new(32);
    let mut records: Vec<PoHRecord> = Vec::new();
    while !schedule.is_done() {
        records.push(schedule.produce(&mut engine));
    }
    assert_eq!(records.len(), 32);
    assert_eq!(schedule.next_index, 32);
    for (i, record) in records.iter().enumerate() {
        assert_eq!(record.tick_index, i as u64);
        if i % 10 == 0 {
            assert_eq!(record.event, Some(format!("Event at tick {}", i).into_bytes()));
        } else {
            assert_eq!(record.event, None);
        }
    }
    assert!(verify_records(DEFAULT_HASH, &records));
    assert!(Scheduler::new(0).is_done());
}

#[test]
fn batches_are_handed_on_when_full() {
    assert!(!batch_ready(0));
    assert!(!batch_ready(DEFAULT_BATCH_SIZE - 1));
    assert!(batch_ready(DEFAULT_BATCH_SIZE));
    assert!(batch_ready(DEFAULT_BATCH_SIZE + 1));
}

#[test]
fn schedule_of_thirty_two_ticks_gives_a_valid_chain() {
    let seed: [u8; 64] = [b'0'; 64];
    let mut engine: PoH = PoH::new(DEFAULT_HASH, &seed);
    let mut schedule = Scheduler::new(32);
    let records: Vec<PoHRecord> = schedule.produce_remaining(&mut engine);
    assert_eq!(records.len(), 32);
    assert!(schedule.is_done());
    assert!(verify_records(DEFAULT_HASH, &records));
    for (i, record) in records.iter().enumerate() {
        assert_eq!(record.tick_index, i as u64);
        assert_eq!(record.event.is_some(), i % 10 == 0);
        if i > 0 {
            assert!(record.timestamp_ms >= records[i - 1].timestamp_ms);
        }
    }
    // Nothing is left to produce.
    assert!(schedule.produce_remaining(&mut engine).is_empty());
    assert_eq!(engine.tick_count, 32);
}
