use timekeeper::block::Block;
use timekeeper::constants::DEFAULT_HASH;
use timekeeper::engine::PoH;
use timekeeper::hash::{hash, ALGORITHM_SHA256};
use timekeeper::processor::{slot_at, slot_due, BlockchainProcessor};
use timekeeper::record::PoHRecord;
use timekeeper::serialization::encode_hash;
use timekeeper::state::{BlockchainState, GENESIS_STAKE, REWARD_PER_BLOCK};
use timekeeper::transaction::{sign, Transaction};
use timekeeper::validator::Validator;
use timekeeper::verify::verify_records;

fn record_in_slot(slot_index: u64) -> PoHRecord {
    PoHRecord {
        tick_index: slot_index * 64,
        slot_index,
        epoch_index: 0,
        hash: [0x5A; 32],
        timestamp_ms: slot_index * 400,
        event: None,
    }
}

#[test]
fn validator_starts_without_earnings() {
    let validator = Validator::new("validator-9", 250);
    assert_eq!(validator.address, "validator-9");
    assert_eq!(validator.stake, 250);
    assert_eq!(validator.blocks_produced, 0);
    assert_eq!(validator.last_active_slot, 0);
    assert_eq!(validator.rewards_earned, 0);
    let copy = validator.duplicate();
    assert_eq!(copy.address, validator.address);
    assert_eq!(copy.stake, validator.stake);
}

#[test]
fn signature_is_the_digest_of_the_content() {
    let expected: String = encode_hash(&hash(ALGORITHM_SHA256, b"alicebob421700000000000"));
    assert_eq!(sign("alice", "bob", 42, 1_700_000_000_000), Some(expected.clone()));
    let tx = Transaction::new_at("alice", "bob", 42, 1_700_000_000_000, 7);
    assert_eq!(tx.id, "tx-1700000000000-7");
    assert_eq!(tx.sender, "alice");
    assert_eq!(tx.recipient, "bob");
    assert_eq!(tx.amount, 42);
    assert_eq!(tx.timestamp_ms, 1_700_000_000_000);
    assert_eq!(tx.signature, expected);
    assert_eq!(tx.signature.len(), 64);
    assert!(tx.verify());
}

#[test]
fn changed_transactions_do_not_verify() {
    let tx = Transaction::new("alice", "bob", 10).unwrap();
    assert!(tx.verify());
    assert!(tx.id.starts_with(&format!("tx-{}-", tx.timestamp_ms)));
    let mut changed = tx.duplicate();
    changed.amount = 11;
    assert!(!changed.verify());
    changed = tx.duplicate();
    changed.recipient = "carol".to_string();
    assert!(!changed.verify());
    changed = tx.duplicate();
    changed.timestamp_ms += 1;
    assert!(!changed.verify());
    changed = tx.duplicate();
    changed.signature = changed.signature.to_uppercase();
    if changed.signature != tx.signature {
        assert!(!changed.verify());
    }
    // The identifier takes no part in the signature.
    changed = tx.duplicate();
    changed.id = "other".to_string();
    assert!(changed.verify());
}

#[test]
fn block_hash_binds_the_content() {
    let transactions: Vec<Transaction> =
        vec![Transaction::new_at("a", "b", 1, 5, 0), Transaction::new_at("c", "d", 2, 6, 1)];
    let block = Block::new(3, 7, 0, 2_800, transactions, "validator-1", "prev", "record");
    let mut preimage: Vec<u8> = b"3702800validator-1prevrecord".to_vec();
    for tx in block.transactions.iter() {
        preimage.extend_from_slice(tx.id.as_bytes());
        preimage.extend_from_slice(tx.signature.as_bytes());
    }
    assert_eq!(block.hash, encode_hash(&hash(ALGORITHM_SHA256, &preimage)));
    assert_eq!(block.calculate_hash(), Some(block.hash.clone()));
    assert_eq!(block.hash.len(), 64);
    assert!(block.hash.chars().all(|c| c.is_ascii_digit() || ('a'..='f').contains(&c)));
    assert!(block.verify());

    let mut changed = block.duplicate();
    changed.height = 4;
    assert!(!changed.verify());
    changed = block.duplicate();
    changed.validator = "validator-2".to_string();
    assert!(!changed.verify());
    changed = block.duplicate();
    changed.poh_record_hash = "other".to_string();
    assert!(!changed.verify());
    changed = block.duplicate();
    changed.transactions.pop();
    assert!(!changed.verify());
    // A block whose hash is right but which holds a bad transaction does not verify.
    let mut bad = Transaction::new_at("a", "b", 1, 5, 0);
    bad.amount = 2;
    let with_bad = Block::new(0, 0, 0, 0, vec![bad], "v", "p", "r");
    assert_eq!(with_bad.calculate_hash(), Some(with_bad.hash.clone()));
    assert!(!with_bad.verify());
    let empty = Block::new(0, 0, 0, 0, Vec::new(), "", "", "");
    assert_eq!(empty.hash, encode_hash(&hash(ALGORITHM_SHA256, b"0000")));
    assert!(empty.verify());
}

#[test]
fn chain_starts_with_four_validators() {
    let state = BlockchainState::new();
    assert!(state.blocks.is_empty());
    assert!(state.pending_transactions.is_empty());
    assert_eq!(state.current_slot, 0);
    assert_eq!(state.current_epoch, 0);
    assert_eq!(state.last_block_hash, "0".repeat(64));
    let addresses: Vec<&str> = state.validators.iter().map(|v| v.address.as_str()).collect();
    assert_eq!(addresses, vec!["validator-1", "validator-2", "validator-3", "validator-4"]);
    assert!(state.validators.iter().all(|v| v.stake == GENESIS_STAKE));
    assert!(state
        .validators
        .iter()
        .all(|v| v.blocks_produced == 0 && v.last_active_slot == 0 && v.rewards_earned == 0));
    assert_eq!(state.total_stake(), Some(4_000));
    assert_eq!(BlockchainState::default().validators.len(), 4);
}

#[test]
fn only_valid_transactions_wait_for_a_block() {
    let mut state = BlockchainState::new();
    assert!(state.add_transaction(Transaction::new_at("a", "b", 1, 2, 3)));
    let mut forged = Transaction::new_at("a", "b", 1, 2, 3);
    forged.amount = 1_000;
    assert!(!state.add_transaction(forged));
    assert_eq!(state.pending_transactions.len(), 1);
    assert_eq!(state.pending_transactions[0].amount, 1);
}

#[test]
fn validators_are_picked_by_their_share_of_the_stake() {
    let mut state = BlockchainState::new();
    state.validators[1].stake = 10;
    state.validators[2].stake = 0;
    // Shares: [0, 1000), [1000, 1010), none, [1010, 2010).
    assert_eq!(state.select_validator_at(0), Some(0));
    assert_eq!(state.select_validator_at(999), Some(0));
    assert_eq!(state.select_validator_at(1_000), Some(1));
    assert_eq!(state.select_validator_at(1_009), Some(1));
    assert_eq!(state.select_validator_at(1_010), Some(3));
    assert_eq!(state.select_validator_at(2_009), Some(3));
    assert_eq!(state.select_validator_at(2_010), Some(0));
    assert_eq!(state.select_validator_at(u64::MAX), Some(0));
    assert_eq!(state.total_stake(), Some(2_010));
    for _ in 0..50 {
        let address: String = state.select_validator().unwrap();
        assert!(address == "validator-1" || address == "validator-2" || address == "validator-4");
    }
    state.validators.clear();
    assert_eq!(state.select_validator_at(0), None);
    assert_eq!(state.select_validator(), None);
    assert_eq!(state.total_stake(), Some(0));
    state.validators.push(Validator::new("big", u64::MAX));
    state.validators.push(Validator::new("one", 1));
    assert_eq!(state.total_stake(), None);
}

#[test]
fn block_takes_the_oldest_transactions_and_rewards_its_validator() {
    let mut state = BlockchainState::new();
    for i in 0..5u64 {
        assert!(state.add_transaction(Transaction::new_at("a", "b", i, 100 + i, i as u32)));
    }
    state.current_slot = 9;
    state.current_epoch = 2;
    let record = record_in_slot(9);
    let block = state.generate_block_with(&record, 2, 3);
    assert_eq!(block.height, 0);
    assert_eq!(block.slot, 9);
    assert_eq!(block.epoch, 2);
    assert_eq!(block.timestamp_ms, record.timestamp_ms);
    assert_eq!(block.validator, "validator-3");
    assert_eq!(block.previous_hash, "0".repeat(64));
    assert_eq!(block.poh_record_hash, "5a".repeat(32));
    let amounts: Vec<u64> = block.transactions.iter().map(|tx| tx.amount).collect();
    assert_eq!(amounts, vec![0, 1, 2]);
    assert!(block.verify());
    let waiting: Vec<u64> = state.pending_transactions.iter().map(|tx| tx.amount).collect();
    assert_eq!(waiting, vec![3, 4]);
    assert_eq!(state.blocks.len(), 1);
    assert_eq!(state.blocks[0].hash, block.hash);
    assert_eq!(state.last_block_hash, block.hash);
    assert_eq!(state.validators[2].stake, GENESIS_STAKE + REWARD_PER_BLOCK);
    assert_eq!(state.validators[2].rewards_earned, REWARD_PER_BLOCK);
    assert_eq!(state.validators[2].blocks_produced, 1);
    assert_eq!(state.validators[2].last_active_slot, 9);
    assert_eq!(state.validators[0].stake, GENESIS_STAKE);

    // A limit above what waits takes all; a block may be empty.
    let second = state.generate_block_with(&record, 0, 300);
    assert_eq!(second.height, 1);
    assert_eq!(second.previous_hash, block.hash);
    assert_eq!(second.transactions.len(), 2);
    let third = state.generate_block_with(&record, 0, 300);
    assert_eq!(third.transactions.len(), 0);
    assert!(third.verify());
    assert_eq!(state.validators[0].blocks_produced, 2);
}

#[test]
fn random_blocks_keep_the_chain_linked() {
    let mut state = BlockchainState::new();
    for i in 0..400u64 {
        assert!(state.add_transaction(Transaction::new_at("a", "b", i, i, 0)));
    }
    let first = state.generate_block(&record_in_slot(1)).unwrap();
    assert!(first.transactions.len() >= 1 && first.transactions.len() <= 300);
    assert_eq!(first.transactions[0].amount, 0);
    assert_eq!(state.pending_transactions.len(), 400 - first.transactions.len());
    let second = state.generate_block(&record_in_slot(2)).unwrap();
    assert_eq!(second.previous_hash, first.hash);
    assert_eq!(second.height, 1);
    assert!(second.verify());
    let total: u64 = state.validators.iter().map(|v| v.stake).sum();
    assert_eq!(total, 4 * GENESIS_STAKE + 2 * REWARD_PER_BLOCK);
    state.validators.clear();
    assert!(state.generate_block(&record_in_slot(3)).is_none());
    assert_eq!(state.blocks.len(), 2);
}

#[test]
fn processor_stamps_valid_transactions_into_the_chain() {
    let mut processor = BlockchainProcessor::new();
    let mut poh: PoH = PoH::new(DEFAULT_HASH, b"processor");
    assert!(processor.create_transaction("alice", "bob", 5));
    let mut forged = Transaction::new_at("x", "y", 1, 1, 1);
    forged.sender = "z".to_string();
    assert!(processor.submit_transaction(forged));
    assert_eq!(processor.transaction_queue.len(), 2);

    assert!(processor.create_transaction("carol", "dave", 6));
    let mut records: Vec<PoHRecord> = vec![poh.next_tick()];
    let encoded: Vec<Vec<u8>> = processor
        .transaction_queue
        .iter()
        .map(|tx| format!("{}>{}:{}", tx.sender, tx.recipient, tx.amount).into_bytes())
        .collect();
    let stamped: Vec<PoHRecord> = processor.process_transactions(&mut poh, &encoded);
    assert!(processor.transaction_queue.is_empty());
    assert_eq!(stamped.len(), 2);
    assert_eq!(stamped[0].event, Some(b"alice>bob:5".to_vec()));
    assert_eq!(stamped[1].event, Some(b"carol>dave:6".to_vec()));
    assert_eq!(stamped[0].tick_index, 1);
    assert_eq!(stamped[1].tick_index, 2);
    records.extend(stamped);
    assert!(verify_records(DEFAULT_HASH, &records));
    assert_eq!(processor.get_state().pending_transactions.len(), 2);
    assert_eq!(processor.get_state().pending_transactions[1].sender, "carol");
    // One at a time gives the same.
    let single = Transaction::new_at("erin", "frank", 1, 2, 3);
    let record = processor.process_transaction(&mut poh, single, b"one").unwrap();
    assert_eq!(record.event, Some(b"one".to_vec()));
    records.push(record);
    assert_eq!(records.len(), 4);
    assert!(processor.process_transactions(&mut poh, &Vec::new()).is_empty());
    assert!(verify_records(DEFAULT_HASH, &records));
    assert_eq!(processor.get_state().pending_transactions.len(), 3);
    assert_eq!(processor.get_state().pending_transactions[0].sender, "alice");
}

#[test]
fn processor_produces_a_block_per_slot() {
    let mut processor = BlockchainProcessor::new();
    assert!(processor.get_block(0).is_none());
    for slot in 1..=4u64 {
        let block = processor.process_slot(&record_in_slot(slot)).unwrap();
        assert_eq!(block.slot, slot);
        assert_eq!(block.height, slot - 1);
    }
    assert_eq!(processor.get_state().current_slot, 4);
    assert_eq!(processor.get_block(2).unwrap().slot, 3);
    assert!(processor.get_block(4).is_none());
    let heights: Vec<u64> = processor.get_blocks(1, 3).iter().map(|b| b.height).collect();
    assert_eq!(heights, vec![1, 2]);
    assert!(processor.get_blocks(3, 1).is_empty());
    assert_eq!(processor.get_blocks(0, u64::MAX).len(), 4);
    assert_eq!(processor.get_validators().len(), 4);
    assert_eq!(processor.get_validator("validator-2").unwrap().address, "validator-2");
    assert!(processor.get_validator("validator-5").is_none());
    let produced: u64 = processor.get_validators().iter().map(|v| v.blocks_produced).sum();
    assert_eq!(produced, 4);
}

#[test]
fn slots_follow_the_wall_clock() {
    assert_eq!(slot_at(0), 0);
    assert_eq!(slot_at(399), 0);
    assert_eq!(slot_at(400), 1);
    assert_eq!(slot_at(1_250), 3);
    assert_eq!(slot_due(399, 0), None);
    assert_eq!(slot_due(400, 0), Some(1));
    assert_eq!(slot_due(400, 1), None);
    assert_eq!(slot_due(2_000, 1), Some(5));
}

#[test]
fn blocks_and_transactions_are_written_on_one_line() {
    let tx = Transaction::new_at("alice", "bob", 42, 1_700_000_000_000, 7);
    assert_eq!(tx.to_text(), "Transaction[tx-1700000000000-7]: alice \u{2192} bob (42 units)");
    let block = Block::new(3, 7, 1, 2_800, vec![tx], "validator-1", "prev", "record");
    assert_eq!(
        block.to_text(),
        format!("Block #3 (Slot 7, Epoch 1): 1 transactions, Validator: validator-1, Hash: {}", block.hash)
    );
}
