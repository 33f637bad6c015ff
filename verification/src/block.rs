//! A block of transactions, bound to its content and to the chain by a digest.

use crate::hash::{hash, sha256_digest, ALGORITHM_SHA256, MAX_HASH_INPUT_LEN};
use crate::serialization::{encode_hash, spec_hex_encode, HASH_HEX_LEN};
use crate::text::{decimal_digits, decimal_text, spec_decimal, spec_decimal_text};
use crate::transaction::{spec_utf8, Transaction};
use vstd::prelude::*;
use vstd::string::{StringExecFns, StringSliceAdditionalSpecFns};

verus! {

/// A block of the chain.
#[derive(Debug, Clone)]
pub struct Block {
    /// Position of the block in the chain, counted from 0.
    pub height: u64,
    /// The slot the block was produced in.
    pub slot: u64,
    /// The epoch the block was produced in.
    pub epoch: u64,
    /// Timestamp of the tick record the block is bound to.
    pub timestamp_ms: u64,
    /// The transactions of the block.
    pub transactions: Vec<Transaction>,
    /// Address of the validator that produced the block.
    pub validator: String,
    /// Hash of the block before this one.
    pub previous_hash: String,
    /// Hash of the tick record the block is bound to, in hexadecimal.
    pub poh_record_hash: String,
    /// Hash of this block, in hexadecimal.
    pub hash: String,
}

/// The bytes that the transactions before `upto` add to a block's preimage.
pub open spec fn spec_transaction_prefix(transactions: Seq<Transaction>, upto: int) -> Seq<u8>
    decreases upto,
{
    if upto <= 0 {
        Seq::empty()
    } else {
        spec_transaction_prefix(transactions, upto - 1) + spec_utf8(transactions[upto - 1].id@)
            + spec_utf8(transactions[upto - 1].signature@)
    }
}

/// The header of a block: height, slot, epoch and timestamp in decimal, then
/// the validator and the previous hash.
pub open spec fn spec_block_header(block: Block) -> Seq<u8> {
    spec_decimal(block.height as nat) + spec_decimal(block.slot as nat) + spec_decimal(
        block.epoch as nat,
    ) + spec_decimal(block.timestamp_ms as nat) + spec_utf8(block.validator@) + spec_utf8(
        block.previous_hash@,
    )
}

/// What a block's hash is the digest of: the header, the record hash, and
/// identifier and signature of every transaction.
pub open spec fn spec_block_preimage(block: Block) -> Seq<u8> {
    spec_block_header(block) + spec_utf8(block.poh_record_hash@) + spec_transaction_prefix(
        block.transactions@,
        block.transactions@.len() as int,
    )
}

/// The hash of a block: the SHA-256 digest of its preimage in lowercase
/// hexadecimal.
pub open spec fn spec_block_hash(block: Block) -> Seq<char> {
    spec_hex_encode(sha256_digest(spec_block_preimage(block)))
}

/// Whether a block is short enough to hash.
pub open spec fn spec_hashable(block: Block) -> bool {
    spec_block_preimage(block).len() <= MAX_HASH_INPUT_LEN
}

/// Copies a run of transactions.
pub fn duplicate_transactions(transactions: &Vec<Transaction>) -> (copy: Vec<Transaction>)
    ensures
        copy@ == transactions@,
{
    let mut copy: Vec<Transaction> = Vec::new();
    let mut i: usize = 0;
    while i < transactions.len()
        invariant
            i <= transactions@.len(),
            copy@ == transactions@.take(i as int),
        decreases transactions@.len() - i,
    {
        copy.push(transactions[i].duplicate());
        assert(copy@ =~= transactions@.take(i + 1));
        i = i + 1;
    }
    assert(transactions@.take(i as int) =~= transactions@);
    copy
}

impl Block {
    /// Whether the block carries the hash of its content and every
    /// transaction in it carries its signature.
    pub open spec fn spec_verify(&self) -> bool {
        &&& spec_hashable(*self)
        &&& self.hash@ == spec_block_hash(*self)
        &&& forall|i: int|
            0 <= i < self.transactions@.len() ==> (#[trigger] self.transactions@[i]).spec_verify()
    }

    /// Creates a block and computes its hash.
    pub fn new(
        height: u64,
        slot: u64,
        epoch: u64,
        timestamp_ms: u64,
        transactions: Vec<Transaction>,
        validator: &str,
        previous_hash: &str,
        poh_record_hash: &str,
    ) -> (block: Block)
        ensures
            block.height == height,
            block.slot == slot,
            block.epoch == epoch,
            block.timestamp_ms == timestamp_ms,
            block.transactions == transactions,
            block.validator@ == validator@,
            block.previous_hash@ == previous_hash@,
            block.poh_record_hash@ == poh_record_hash@,
            spec_hashable(block) ==> block.hash@ == spec_block_hash(block) && block.hash@.len()
                == HASH_HEX_LEN,
            !spec_hashable(block) ==> block.hash@.len() == 0,
    {
        let mut block = Block {
            height,
            slot,
            epoch,
            timestamp_ms,
            transactions,
            validator: validator.to_owned(),
            previous_hash: previous_hash.to_owned(),
            poh_record_hash: poh_record_hash.to_owned(),
            hash: String::new(),
        };
        let computed: Option<String> = block.calculate_hash();
        match computed {
            Some(hash) => {
                block.hash = hash;
            },
            None => {},
        }
        block
    }

    /// Computes the hash of the block's content, if it is short enough to
    /// hash. The stored hash takes no part in it.
    pub fn calculate_hash(&self) -> (computed: Option<String>)
        ensures
            spec_hashable(*self) ==> computed is Some && computed->Some_0@ == spec_block_hash(
                *self,
            ) && computed->Some_0@.len() == HASH_HEX_LEN,
            !spec_hashable(*self) ==> computed is None,
    {
        let mut bytes: Vec<u8> = Vec::new();
        bytes.extend_from_slice(decimal_digits(self.height).as_slice());
        bytes.extend_from_slice(decimal_digits(self.slot).as_slice());
        bytes.extend_from_slice(decimal_digits(self.epoch).as_slice());
        bytes.extend_from_slice(decimal_digits(self.timestamp_ms).as_slice());
        bytes.extend_from_slice(self.validator.as_str().as_bytes());
        bytes.extend_from_slice(self.previous_hash.as_str().as_bytes());
        assert(bytes@ =~= spec_block_header(*self));
        bytes.extend_from_slice(self.poh_record_hash.as_str().as_bytes());
        let ghost start = bytes@;
        let mut i: usize = 0;
        while i < self.transactions.len()
            invariant
                i <= self.transactions@.len(),
                start == spec_block_header(*self) + spec_utf8(self.poh_record_hash@),
                bytes@ == start + spec_transaction_prefix(self.transactions@, i as int),
            decreases self.transactions@.len() - i,
        {
            let ghost before = bytes@;
            bytes.extend_from_slice(self.transactions[i].id.as_str().as_bytes());
            bytes.extend_from_slice(self.transactions[i].signature.as_str().as_bytes());
            assert(bytes@ =~= start + spec_transaction_prefix(self.transactions@, i + 1));
            i = i + 1;
        }
        assert(bytes@ =~= spec_block_preimage(*self));
        if bytes.len() as u64 > MAX_HASH_INPUT_LEN {
            return None;
        }
        let digest: [u8; 32] = hash(ALGORITHM_SHA256, bytes.as_slice());
        Some(encode_hash(&digest))
    }

    /// Checks the block's hash against its content and the signature of
    /// every transaction in it.
    pub fn verify(&self) -> (valid: bool)
        ensures
            valid == self.spec_verify(),
    {
        match self.calculate_hash() {
            Some(calculated) => {
                if calculated != self.hash {
                    return false;
                }
            },
            None => {
                return false;
            },
        }
        let mut i: usize = 0;
        while i < self.transactions.len()
            invariant
                i <= self.transactions@.len(),
                forall|j: int| 0 <= j < i ==> (#[trigger] self.transactions@[j]).spec_verify(),
            decreases self.transactions@.len() - i,
        {
            if !self.transactions[i].verify() {
                return false;
            }
            i = i + 1;
        }
        true
    }

    /// The block on one line.
    pub open spec fn spec_text(&self) -> Seq<char> {
        "Block #"@ + spec_decimal_text(self.height as nat) + " (Slot "@ + spec_decimal_text(
            self.slot as nat,
        ) + ", Epoch "@ + spec_decimal_text(self.epoch as nat) + "): "@ + spec_decimal_text(
            self.transactions@.len(),
        ) + " transactions, Validator: "@ + self.validator@ + ", Hash: "@ + self.hash@
    }

    /// Writes the block on one line.
    pub fn to_text(&self) -> (text: String)
        ensures
            text@ == self.spec_text(),
    {
        let mut text: String = String::from_str("Block #");
        text.append(decimal_text(self.height).as_str());
        text.append(" (Slot ");
        text.append(decimal_text(self.slot).as_str());
        text.append(", Epoch ");
        text.append(decimal_text(self.epoch).as_str());
        text.append("): ");
        text.append(decimal_text(self.transactions.len() as u64).as_str());
        text.append(" transactions, Validator: ");
        text.append(self.validator.as_str());
        text.append(", Hash: ");
        text.append(self.hash.as_str());
        text
    }

    /// A copy of the block.
    pub fn duplicate(&self) -> (copy: Block)
        ensures
            copy.height == self.height,
            copy.slot == self.slot,
            copy.epoch == self.epoch,
            copy.timestamp_ms == self.timestamp_ms,
            copy.transactions@ == self.transactions@,
            copy.validator == self.validator,
            copy.previous_hash == self.previous_hash,
            copy.poh_record_hash == self.poh_record_hash,
            copy.hash == self.hash,
    {
        Block {
            height: self.height,
            slot: self.slot,
            epoch: self.epoch,
            timestamp_ms: self.timestamp_ms,
            transactions: duplicate_transactions(&self.transactions),
            validator: self.validator.clone(),
            previous_hash: self.previous_hash.clone(),
            poh_record_hash: self.poh_record_hash.clone(),
            hash: self.hash.clone(),
        }
    }
}

} // verus!
