//! A transfer between two addresses, bound to its content by a digest.

use crate::hash::{hash, sha256_digest, ALGORITHM_SHA256, MAX_HASH_INPUT_LEN};
use crate::serialization::{encode_hash, spec_hex_encode, HASH_HEX_LEN};
use crate::text::{decimal_digits, decimal_text, spec_decimal, spec_decimal_text};
use std::time::{Duration, SystemTime, SystemTimeError};
use vstd::prelude::*;
use vstd::string::{StringExecFns, StringSliceAdditionalSpecFns};

verus! {

/// A point of the system clock. Nothing is known of what is inside.
#[verifier::external_type_specification]
#[verifier::external_body]
pub struct ExSystemTime(std::time::SystemTime);

/// The error of a system clock that lies before the point it is measured from.
#[verifier::external_type_specification]
#[verifier::external_body]
pub struct ExSystemTimeError(std::time::SystemTimeError);

/// `SystemTime::now` reads the system clock: nothing is claimed of the reading.
pub assume_specification[ std::time::SystemTime::now ]() -> (now: SystemTime);

/// `SystemTime::duration_since` measures the time between two points of the
/// system clock: nothing is claimed of the measure.
pub assume_specification[ std::time::SystemTime::duration_since ](
    later: &SystemTime,
    earlier: SystemTime,
) -> (elapsed: Result<Duration, SystemTimeError>);

/// Gives `std::time::UNIX_EPOCH`, the point that timestamps count from.
#[verifier::external_body]
fn unix_epoch() -> (epoch: SystemTime) {
    std::time::UNIX_EPOCH
}

/// Calls `rand::rng` and draws a `u32` from it with `Rng::random`. Trusted:
/// nothing; the number may be any.
#[verifier::external_body]
fn random_nonce() -> (nonce: u32) {
    rand::Rng::random::<u32>(&mut rand::rng())
}

/// A transfer of an amount from a sender to a recipient.
#[derive(Debug, Clone)]
pub struct Transaction {
    /// Identifier: the time of creation and a random number.
    pub id: String,
    /// Address the amount comes from.
    pub sender: String,
    /// Address the amount goes to.
    pub recipient: String,
    /// The amount transferred.
    pub amount: u64,
    /// Milliseconds since the Unix epoch at creation.
    pub timestamp_ms: u64,
    /// Hexadecimal digest of sender, recipient, amount and timestamp.
    pub signature: String,
}

/// The bytes of a text.
pub open spec fn spec_utf8(text: Seq<char>) -> Seq<u8> {
    vstd::utf8::encode_utf8(text)
}

/// What a signature is the digest of: sender and recipient, then amount and
/// timestamp in decimal.
pub open spec fn spec_signature_preimage(
    sender: Seq<char>,
    recipient: Seq<char>,
    amount: u64,
    timestamp_ms: u64,
) -> Seq<u8> {
    spec_utf8(sender) + spec_utf8(recipient) + spec_decimal(amount as nat) + spec_decimal(
        timestamp_ms as nat,
    )
}

/// The signature of a transfer: the SHA-256 digest of its preimage in
/// lowercase hexadecimal.
pub open spec fn spec_signature(
    sender: Seq<char>,
    recipient: Seq<char>,
    amount: u64,
    timestamp_ms: u64,
) -> Seq<char> {
    spec_hex_encode(sha256_digest(spec_signature_preimage(sender, recipient, amount, timestamp_ms)))
}

/// Whether a transfer is short enough to sign.
pub open spec fn spec_signable(
    sender: Seq<char>,
    recipient: Seq<char>,
    amount: u64,
    timestamp_ms: u64,
) -> bool {
    spec_signature_preimage(sender, recipient, amount, timestamp_ms).len() <= MAX_HASH_INPUT_LEN
}

/// The identifier of a transaction created at `timestamp_ms` with `nonce`.
pub open spec fn spec_transaction_id(timestamp_ms: u64, nonce: u32) -> Seq<char> {
    "tx-"@ + spec_decimal_text(timestamp_ms as nat) + "-"@ + spec_decimal_text(nonce as nat)
}

/// Signs a transfer, if it is short enough to sign.
pub fn sign(sender: &str, recipient: &str, amount: u64, timestamp_ms: u64) -> (signature: Option<
    String,
>)
    ensures
        spec_signable(sender@, recipient@, amount, timestamp_ms) ==> signature is Some
            && signature->Some_0@ == spec_signature(sender@, recipient@, amount, timestamp_ms)
            && signature->Some_0@.len() == HASH_HEX_LEN,
        !spec_signable(sender@, recipient@, amount, timestamp_ms) ==> signature is None,
{
    let mut message: Vec<u8> = Vec::new();
    message.extend_from_slice(sender.as_bytes());
    message.extend_from_slice(recipient.as_bytes());
    message.extend_from_slice(decimal_digits(amount).as_slice());
    message.extend_from_slice(decimal_digits(timestamp_ms).as_slice());
    assert(message@ =~= spec_signature_preimage(sender@, recipient@, amount, timestamp_ms));
    if message.len() as u64 > MAX_HASH_INPUT_LEN {
        return None;
    }
    let digest: [u8; 32] = hash(ALGORITHM_SHA256, message.as_slice());
    Some(encode_hash(&digest))
}

impl Transaction {
    /// Whether the transaction carries the signature of its content.
    pub open spec fn spec_verify(&self) -> bool {
        &&& spec_signable(self.sender@, self.recipient@, self.amount, self.timestamp_ms)
        &&& self.signature@ == spec_signature(
            self.sender@,
            self.recipient@,
            self.amount,
            self.timestamp_ms,
        )
    }

    /// Creates and signs a transaction for a given time and random number.
    pub fn new_at(sender: &str, recipient: &str, amount: u64, timestamp_ms: u64, nonce: u32) -> (tx:
        Transaction)
        requires
            spec_signable(sender@, recipient@, amount, timestamp_ms),
        ensures
            tx.id@ == spec_transaction_id(timestamp_ms, nonce),
            tx.sender@ == sender@,
            tx.recipient@ == recipient@,
            tx.amount == amount,
            tx.timestamp_ms == timestamp_ms,
            tx.spec_verify(),
            tx.signature@.len() == HASH_HEX_LEN,
    {
        let mut id: String = String::from_str("tx-");
        id.append(decimal_text(timestamp_ms).as_str());
        id.append("-");
        id.append(decimal_text(nonce as u64).as_str());
        let signature: String = match sign(sender, recipient, amount, timestamp_ms) {
            Some(signature) => signature,
            None => String::new(),
        };
        Transaction {
            id,
            sender: sender.to_owned(),
            recipient: recipient.to_owned(),
            amount,
            timestamp_ms,
            signature,
        }
    }

    /// Creates and signs a transaction now: its timestamp is the system
    /// clock's reading in milliseconds since the Unix epoch and its
    /// identifier ends in a random number. Where the clock lies before the
    /// epoch there is no such reading, and no transaction.
    pub fn new(sender: &str, recipient: &str, amount: u64) -> (created: Option<Transaction>)
        requires
            spec_utf8(sender@).len() + spec_utf8(recipient@).len() + 40 <= MAX_HASH_INPUT_LEN,
        ensures
            created is Some ==> {
                let tx = created->Some_0;
                &&& tx.sender@ == sender@
                &&& tx.recipient@ == recipient@
                &&& tx.amount == amount
                &&& tx.spec_verify()
                &&& tx.signature@.len() == HASH_HEX_LEN
                &&& exists|nonce: u32| tx.id@ == #[trigger] spec_transaction_id(tx.timestamp_ms, nonce)
            },
    {
        let now: SystemTime = SystemTime::now();
        let timestamp_ms: u64 = match now.duration_since(unix_epoch()) {
            Ok(elapsed) => #[verifier::truncate] (elapsed.as_millis() as u64),
            Err(_) => {
                return None;
            },
        };
        let nonce: u32 = random_nonce();
        proof {
            crate::text::lemma_decimal_len(amount as nat);
            crate::text::lemma_decimal_len(timestamp_ms as nat);
        }
        Some(Transaction::new_at(sender, recipient, amount, timestamp_ms, nonce))
    }

    /// Checks the signature against the content.
    pub fn verify(&self) -> (valid: bool)
        ensures
            valid == self.spec_verify(),
    {
        match sign(
            self.sender.as_str(),
            self.recipient.as_str(),
            self.amount,
            self.timestamp_ms,
        ) {
            Some(expected) => expected == self.signature,
            None => false,
        }
    }

    /// The transaction on one line.
    pub open spec fn spec_text(&self) -> Seq<char> {
        "Transaction["@ + self.id@ + "]: "@ + self.sender@ + " \u{2192} "@ + self.recipient@ + " ("@
            + spec_decimal_text(self.amount as nat) + " units)"@
    }

    /// Writes the transaction on one line.
    pub fn to_text(&self) -> (text: String)
        ensures
            text@ == self.spec_text(),
    {
        let mut text: String = String::from_str("Transaction[");
        text.append(self.id.as_str());
        text.append("]: ");
        text.append(self.sender.as_str());
        text.append(" \u{2192} ");
        text.append(self.recipient.as_str());
        text.append(" (");
        text.append(decimal_text(self.amount).as_str());
        text.append(" units)");
        text
    }

    /// A copy of the transaction.
    pub fn duplicate(&self) -> (copy: Transaction)
        ensures
            copy == *self,
    {
        Transaction {
            id: self.id.clone(),
            sender: self.sender.clone(),
            recipient: self.recipient.clone(),
            amount: self.amount,
            timestamp_ms: self.timestamp_ms,
            signature: self.signature.clone(),
        }
    }
}

} // verus!
