//! The textual form of a 32-byte hash: 64 lowercase hexadecimal characters.

use vstd::prelude::*;

verus! {

/// Number of characters in the textual form of a hash.
pub const HASH_HEX_LEN: usize = 64;

/// Why a text is not the textual form of a hash.
#[derive(Debug, Clone, Copy, PartialEq, Eq, Structural)]
pub enum HashParseError {
    /// The text has an odd number of bytes or holds a character that is no
    /// hexadecimal digit.
    NotHex,
    /// The text is hexadecimal but stands for the given number of bytes, not 32.
    WrongLength { decoded: usize },
}

/// The lowercase hexadecimal digit of a number below 16.
pub open spec fn spec_hex_digit(nibble: int) -> char {
    if nibble == 0 {
        '0'
    } else if nibble == 1 {
        '1'
    } else if nibble == 2 {
        '2'
    } else if nibble == 3 {
        '3'
    } else if nibble == 4 {
        '4'
    } else if nibble == 5 {
        '5'
    } else if nibble == 6 {
        '6'
    } else if nibble == 7 {
        '7'
    } else if nibble == 8 {
        '8'
    } else if nibble == 9 {
        '9'
    } else if nibble == 10 {
        'a'
    } else if nibble == 11 {
        'b'
    } else if nibble == 12 {
        'c'
    } else if nibble == 13 {
        'd'
    } else if nibble == 14 {
        'e'
    } else {
        'f'
    }
}

/// The number a hexadecimal digit stands for, in either case.
pub open spec fn spec_hex_value(digit: char) -> Option<int> {
    if digit == '0' {
        Some(0)
    } else if digit == '1' {
        Some(1)
    } else if digit == '2' {
        Some(2)
    } else if digit == '3' {
        Some(3)
    } else if digit == '4' {
        Some(4)
    } else if digit == '5' {
        Some(5)
    } else if digit == '6' {
        Some(6)
    } else if digit == '7' {
        Some(7)
    } else if digit == '8' {
        Some(8)
    } else if digit == '9' {
        Some(9)
    } else if digit == 'a' || digit == 'A' {
        Some(10)
    } else if digit == 'b' || digit == 'B' {
        Some(11)
    } else if digit == 'c' || digit == 'C' {
        Some(12)
    } else if digit == 'd' || digit == 'D' {
        Some(13)
    } else if digit == 'e' || digit == 'E' {
        Some(14)
    } else if digit == 'f' || digit == 'F' {
        Some(15)
    } else {
        None
    }
}

/// The lowercase hexadecimal text of some bytes: two digits per byte, the
/// high half first.
pub open spec fn spec_hex_encode(data: Seq<u8>) -> Seq<char> {
    Seq::new(
        2 * data.len(),
        |i: int|
            if i % 2 == 0 {
                spec_hex_digit(data[i / 2] as int / 16)
            } else {
                spec_hex_digit(data[i / 2] as int % 16)
            },
    )
}

/// Whether a text is made of pairs of hexadecimal digits.
pub open spec fn spec_is_hex(text: Seq<char>) -> bool {
    &&& text.len() % 2 == 0
    &&& forall|i: int| 0 <= i < text.len() ==> spec_hex_value(#[trigger] text[i]) is Some
}

/// The bytes a hexadecimal text stands for, if it is one.
pub open spec fn spec_hex_decode(text: Seq<char>) -> Option<Seq<u8>> {
    if spec_is_hex(text) {
        Some(
            Seq::new(
                text.len() / 2,
                |i: int|
                    (spec_hex_value(text[2 * i]).unwrap() * 16 + spec_hex_value(
                        text[2 * i + 1],
                    ).unwrap()) as u8,
            ),
        )
    } else {
        None
    }
}

/// Calls `hex::encode`. Trusted: the text holds two lowercase hexadecimal
/// digits for each byte, in order, the high half of a byte first.
#[verifier::external_body]
fn hex_encode(data: &[u8]) -> (text: String)
    ensures
        text@ == spec_hex_encode(data@),
{
    hex::encode(data)
}

/// Calls `hex::decode`. Trusted: a text of an even number of hexadecimal
/// digits, of either case, gives the bytes its pairs stand for; every other
/// text gives nothing.
#[verifier::external_body]
fn hex_decode(text: &str) -> (bytes: Option<Vec<u8>>)
    ensures
        match bytes {
            Some(decoded) => spec_hex_decode(text@) == Some(decoded@),
            None => spec_hex_decode(text@) is None,
        },
{
    hex::decode(text).ok()
}

/// Writes a hash as 64 lowercase hexadecimal characters.
pub fn encode_hash(hash: &[u8; 32]) -> (text: String)
    ensures
        text@ == spec_hex_encode(hash@),
        text@.len() == HASH_HEX_LEN,
{
    hex_encode(hash.as_slice())
}

/// Reads a hash from its textual form. A text that is not hexadecimal is
/// refused, and so is one that does not stand for exactly 32 bytes.
pub fn decode_hash(text: &str) -> (hash: Result<[u8; 32], HashParseError>)
    ensures
        match spec_hex_decode(text@) {
            None => hash == Err::<[u8; 32], HashParseError>(HashParseError::NotHex),
            Some(decoded) => if decoded.len() == 32 {
                hash is Ok && hash->Ok_0@ == decoded
            } else {
                hash == Err::<[u8; 32], HashParseError>(
                    HashParseError::WrongLength { decoded: decoded.len() as usize },
                )
            },
        },
        hash is Ok ==> text@.len() == HASH_HEX_LEN,
{
    let bytes: Vec<u8> = match hex_decode(text) {
        Some(decoded) => decoded,
        None => {
            return Err(HashParseError::NotHex);
        },
    };
    if bytes.len() != 32 {
        return Err(HashParseError::WrongLength { decoded: bytes.len() });
    }
    let mut hash: [u8; 32] = [0u8; 32];
    let mut i: usize = 0;
    while i < 32
        invariant
            i <= 32,
            bytes@.len() == 32,
            forall|j: int| 0 <= j < i ==> hash@[j] == bytes@[j],
        decreases 32 - i,
    {
        hash[i] = bytes[i];
        i = i + 1;
    }
    assert(hash@ =~= bytes@);
    Ok(hash)
}

/// Reading back what was written gives the bytes that were written.
pub proof fn lemma_hex_round_trip(data: Seq<u8>)
    ensures
        spec_hex_decode(spec_hex_encode(data)) == Some(data),
{
    let text = spec_hex_encode(data);
    assert forall|i: int| 0 <= i < text.len() implies spec_hex_value(#[trigger] text[i]) is Some by {
        lemma_digit_value(data[i / 2] as int / 16);
        lemma_digit_value(data[i / 2] as int % 16);
    }
    assert(spec_is_hex(text));
    let decoded = spec_hex_decode(text).unwrap();
    assert forall|i: int| 0 <= i < data.len() implies decoded[i] == data[i] by {
        lemma_digit_value(data[i] as int / 16);
        lemma_digit_value(data[i] as int % 16);
        assert((2 * i) / 2 == i && (2 * i) % 2 == 0);
        assert((2 * i + 1) / 2 == i && (2 * i + 1) % 2 == 1);
    }
    assert(decoded =~= data);
}

/// A digit stands for the number it was written for.
pub proof fn lemma_digit_value(nibble: int)
    requires
        0 <= nibble < 16,
    ensures
        spec_hex_value(spec_hex_digit(nibble)) == Some(nibble),
{
}

} // verus!
