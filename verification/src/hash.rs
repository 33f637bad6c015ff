//! Hash primitives over 32-byte digests: one-shot hashing, hashing with a
//! prefix, sequential chain extension and constant-time comparison.
//!
//! The algorithm is chosen by an identifier that every operation takes:
//! `1` selects BLAKE3, every other value selects SHA-256.

use vstd::prelude::*;

verus! {

/// Identifier of SHA-256.
pub const ALGORITHM_SHA256: u8 = 0;

/// Identifier of BLAKE3.
pub const ALGORITHM_BLAKE3: u8 = 1;

/// Longest input, in bytes, that a digest is computed of: SHA-256 counts its
/// input in a 64-bit number of bits.
pub const MAX_HASH_INPUT_LEN: u64 = 0x1FFF_FFFF_FFFF_FFFF;

/// The SHA-256 digest of `data`, as `ring` computes it.
pub uninterp spec fn sha256_digest(data: Seq<u8>) -> Seq<u8>;

/// The BLAKE3 digest of `data`, as the `blake3` crate computes it.
pub uninterp spec fn blake3_digest(data: Seq<u8>) -> Seq<u8>;

/// Calls `ring::digest::digest` with `ring::digest::SHA256`. Trusted: the 32
/// bytes that come back are the SHA-256 digest of `data`, a function of the
/// input bytes alone. `ring` refuses inputs of 2^61 bytes and more, which the
/// precondition leaves out.
#[verifier::external_body]
fn sha256(data: &[u8]) -> (out: [u8; 32])
    requires
        data@.len() <= MAX_HASH_INPUT_LEN,
    ensures
        out@ == sha256_digest(data@),
{
    let digest = ring::digest::digest(&ring::digest::SHA256, data);
    let mut out: [u8; 32] = [0u8; 32];
    out.copy_from_slice(digest.as_ref());
    out
}

/// Calls `blake3::hash`. Trusted: the 32 bytes that come back are the BLAKE3
/// digest of `data`, a function of the input bytes alone.
#[verifier::external_body]
fn blake3(data: &[u8]) -> (out: [u8; 32])
    ensures
        out@ == blake3_digest(data@),
{
    *blake3::hash(data).as_bytes()
}

/// The algorithm that an identifier selects: BLAKE3 for `1`, SHA-256 otherwise.
pub open spec fn spec_algorithm(selected: u8) -> u8 {
    if selected == ALGORITHM_BLAKE3 {
        ALGORITHM_BLAKE3
    } else {
        ALGORITHM_SHA256
    }
}

/// The digest of `data` under the selected algorithm.
pub open spec fn spec_hash(algorithm: u8, data: Seq<u8>) -> Seq<u8> {
    if algorithm == ALGORITHM_BLAKE3 {
        blake3_digest(data)
    } else {
        sha256_digest(data)
    }
}

/// The digest of `prev_hash` followed by `data`, hashed in one pass.
pub open spec fn spec_hash_with_data(algorithm: u8, prev_hash: Seq<u8>, data: Seq<u8>) -> Seq<u8> {
    spec_hash(algorithm, prev_hash + data)
}

/// `start` hashed `iterations` times in sequence.
pub open spec fn spec_extend_chain(algorithm: u8, start: Seq<u8>, iterations: nat) -> Seq<u8>
    decreases iterations,
{
    if iterations == 0 {
        start
    } else {
        spec_hash(algorithm, spec_extend_chain(algorithm, start, (iterations - 1) as nat))
    }
}

/// The hash a chain reaches from `prev_hash` after an optional event is mixed
/// in and `iterations` sequential hashes follow.
pub open spec fn spec_expected_hash(
    algorithm: u8,
    prev_hash: Seq<u8>,
    iterations: nat,
    event: Option<Seq<u8>>,
) -> Seq<u8> {
    match event {
        Some(data) => spec_extend_chain(
            algorithm,
            spec_hash_with_data(algorithm, prev_hash, data),
            iterations,
        ),
        None => spec_extend_chain(algorithm, prev_hash, iterations),
    }
}

/// The bytes of an optional borrowed event.
pub open spec fn spec_event_bytes(event: Option<&[u8]>) -> Option<Seq<u8>> {
    match event {
        Some(data) => Some(data@),
        None => None,
    }
}

/// Whether an optional event, behind a 32-byte prefix, is short enough to hash.
pub open spec fn spec_event_fits(event: Option<Seq<u8>>) -> bool {
    match event {
        Some(data) => data.len() + 32 <= MAX_HASH_INPUT_LEN,
        None => true,
    }
}

/// Stores the algorithm that `algorithm` selects into the selection.
pub fn set_hash_algorithm(selected: &mut u8, algorithm: u8)
    ensures
        *final(selected) == spec_algorithm(algorithm),
{
    *selected = get_current_algorithm(algorithm);
}

/// The identifier of the algorithm in use under a selection: unknown values
/// fall back to SHA-256.
pub fn get_current_algorithm(selected: u8) -> (algorithm: u8)
    ensures
        algorithm == spec_algorithm(selected),
{
    if selected == ALGORITHM_BLAKE3 {
        ALGORITHM_BLAKE3
    } else {
        ALGORITHM_SHA256
    }
}

/// The name of the algorithm in use under a selection.
pub fn get_algorithm_name(selected: u8) -> (name: &'static str)
    ensures
        selected == ALGORITHM_BLAKE3 ==> name@ == "BLAKE3"@,
        selected != ALGORITHM_BLAKE3 ==> name@ == "SHA256"@,
{
    if selected == ALGORITHM_BLAKE3 {
        "BLAKE3"
    } else {
        "SHA256"
    }
}

/// One-shot digest of `data`.
pub fn hash(algorithm: u8, data: &[u8]) -> (out: [u8; 32])
    requires
        data@.len() <= MAX_HASH_INPUT_LEN,
    ensures
        out@ == spec_hash(algorithm, data@),
{
    if algorithm == ALGORITHM_BLAKE3 {
        blake3(data)
    } else {
        sha256(data)
    }
}

/// Digest of `prev_hash` followed by `data`, in a single pass.
pub fn hash_with_data(algorithm: u8, prev_hash: &[u8; 32], data: &[u8]) -> (out: [u8; 32])
    requires
        data@.len() + 32 <= MAX_HASH_INPUT_LEN,
    ensures
        out@ == spec_hash_with_data(algorithm, prev_hash@, data@),
{
    let mut input: Vec<u8> = Vec::new();
    input.extend_from_slice(prev_hash.as_slice());
    input.extend_from_slice(data);
    assert(input@ =~= prev_hash@ + data@);
    hash(algorithm, input.as_slice())
}

/// One link of the chain: the digest of a 32-byte state.
fn hash_single(algorithm: u8, input: &[u8; 32]) -> (out: [u8; 32])
    ensures
        out@ == spec_hash(algorithm, input@),
{
    hash(algorithm, input.as_slice())
}

/// Applies the hash `iterations` times in sequence, starting from `prev_hash`.
///
/// Runs of eight links are taken in one pass of the main loop; the result is
/// the same as that of linking one by one.
pub fn extend_hash_chain(algorithm: u8, prev_hash: &[u8; 32], iterations: u64) -> (out: [u8; 32])
    ensures
        out@ == spec_extend_chain(algorithm, prev_hash@, iterations as nat),
{
    let mut current_hash: [u8; 32] = *prev_hash;
    let mut i: u64 = 0;
    if iterations >= 8 {
        while iterations - i >= 8
            invariant
                i <= iterations,
                current_hash@ == spec_extend_chain(algorithm, prev_hash@, i as nat),
            decreases iterations - i,
        {
            current_hash = hash_single(algorithm, &current_hash);
            assert(current_hash@ == spec_extend_chain(algorithm, prev_hash@, (i + 1) as nat));
            current_hash = hash_single(algorithm, &current_hash);
            assert(current_hash@ == spec_extend_chain(algorithm, prev_hash@, (i + 2) as nat));
            current_hash = hash_single(algorithm, &current_hash);
            assert(current_hash@ == spec_extend_chain(algorithm, prev_hash@, (i + 3) as nat));
            current_hash = hash_single(algorithm, &current_hash);
            assert(current_hash@ == spec_extend_chain(algorithm, prev_hash@, (i + 4) as nat));
            current_hash = hash_single(algorithm, &current_hash);
            assert(current_hash@ == spec_extend_chain(algorithm, prev_hash@, (i + 5) as nat));
            current_hash = hash_single(algorithm, &current_hash);
            assert(current_hash@ == spec_extend_chain(algorithm, prev_hash@, (i + 6) as nat));
            current_hash = hash_single(algorithm, &current_hash);
            assert(current_hash@ == spec_extend_chain(algorithm, prev_hash@, (i + 7) as nat));
            current_hash = hash_single(algorithm, &current_hash);
            assert(current_hash@ == spec_extend_chain(algorithm, prev_hash@, (i + 8) as nat));
            i = i + 8;
        }
    }
    while i < iterations
        invariant
            i <= iterations,
            current_hash@ == spec_extend_chain(algorithm, prev_hash@, i as nat),
        decreases iterations - i,
    {
        current_hash = hash_single(algorithm, &current_hash);
        assert(current_hash@ == spec_extend_chain(algorithm, prev_hash@, (i + 1) as nat));
        i = i + 1;
    }
    current_hash
}

/// Performs the work of `iterations` sequential hashes, starting from 32
/// zero bytes, and gives the hash that the work ends in.
pub fn compute_hashes(algorithm: u8, iterations: u64) -> (out: [u8; 32])
    ensures
        out@ == spec_extend_chain(algorithm, Seq::new(32, |i: int| 0u8), iterations as nat),
{
    let zero_hash: [u8; 32] = [0u8; 32];
    assert(zero_hash@ =~= Seq::new(32, |i: int| 0u8));
    extend_hash_chain(algorithm, &zero_hash, iterations)
}

/// Compares two digests without stopping at the first difference: the
/// differences of all 32 byte pairs are gathered before the one test.
pub fn constant_time_eq(a: &[u8; 32], b: &[u8; 32]) -> (equal: bool)
    ensures
        equal == (a@ == b@),
{
    let mut result: u8 = 0;
    let mut i: usize = 0;
    while i < 32
        invariant
            i <= 32,
            (result == 0) == (forall|j: int| 0 <= j < i ==> a@[j] == b@[j]),
        decreases 32 - i,
    {
        let x: u8 = a[i];
        let y: u8 = b[i];
        assert(((result | (x ^ y)) == 0) == (result == 0 && x == y)) by (bit_vector);
        result = result | (x ^ y);
        i = i + 1;
    }
    assert((result == 0) == (a@ =~= b@));
    result == 0
}

/// Whether `next_hash` is the hash that the chain reaches from `prev_hash`.
pub open spec fn spec_verify_hash_chain(
    algorithm: u8,
    prev_hash: Seq<u8>,
    next_hash: Seq<u8>,
    iterations: nat,
    event: Option<Seq<u8>>,
) -> bool {
    spec_expected_hash(algorithm, prev_hash, iterations, event) == next_hash
}

/// Whether `next_hash` is what the chain reaches from `prev_hash` after the
/// optional event is mixed in and `iterations` hashes follow.
pub fn verify_hash_chain(
    algorithm: u8,
    prev_hash: &[u8; 32],
    next_hash: &[u8; 32],
    iterations: u64,
    event_data: Option<&[u8]>,
) -> (valid: bool)
    requires
        spec_event_fits(spec_event_bytes(event_data)),
    ensures
        valid == spec_verify_hash_chain(
            algorithm,
            prev_hash@,
            next_hash@,
            iterations as nat,
            spec_event_bytes(event_data),
        ),
{
    let mut expected_hash: [u8; 32] = *prev_hash;
    if let Some(data) = event_data {
        expected_hash = hash_with_data(algorithm, &expected_hash, data);
    }
    expected_hash = extend_hash_chain(algorithm, &expected_hash, iterations);
    constant_time_eq(&expected_hash, next_hash)
}

/// Extending a chain in two steps is extending it in one: `first` links and
/// then `second` links reach the hash that `first + second` links reach.
pub proof fn lemma_extend_chain_adds(algorithm: u8, start: Seq<u8>, first: nat, second: nat)
    ensures
        spec_extend_chain(algorithm, spec_extend_chain(algorithm, start, first), second)
            == spec_extend_chain(algorithm, start, first + second),
    decreases second,
{
    if second > 0 {
        lemma_extend_chain_adds(algorithm, start, first, (second - 1) as nat);
        assert(first + second - 1 == first + (second - 1));
    }
}

/// Extending a chain and then checking the result against its start always
/// succeeds: for every start and every number of links, the hash that the
/// links reach passes the check made without an event.
pub proof fn lemma_extended_chain_verifies(algorithm: u8, start: Seq<u8>, iterations: nat)
    ensures
        spec_verify_hash_chain(
            algorithm,
            start,
            spec_extend_chain(algorithm, start, iterations),
            iterations,
            None,
        ),
{
}

} // verus!
