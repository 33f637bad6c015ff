use std::time::{Duration, Instant};

use ring::digest::{Context, Digest, SHA256};
use timekeeper::constants::{DEFAULT_HASH, DEFAULT_HASHES_PER_TICK};
use timekeeper::hash::{
    compute_hashes, constant_time_eq, extend_hash_chain, get_algorithm_name, get_current_algorithm, hash,
    hash_with_data, set_hash_algorithm, verify_hash_chain, ALGORITHM_BLAKE3, ALGORITHM_SHA256,
};

// Links one by one, with the streaming interface of the digest.
fn manual_hash_chain(prev_hash: &[u8; 32], iterations: u64) -> [u8; 32] {
    let mut current_hash: [u8; 32] = *prev_hash;
    for _ in 0..iterations {
        let mut context: Context = Context::new(&SHA256);
        context.update(&current_hash);
        let result: Digest = context.finish();
        current_hash.copy_from_slice(result.as_ref());
    }
    return current_hash;
}

fn decode_hex(text: &str) -> Vec<u8> {
    hex::decode(text).unwrap()
}

#[test]
fn test_hash_chain_correctness() {
    let seed: [u8; 32] = [0u8; 32];
    // Verify with small number of iterations.
    let hash1: [u8; 32] = manual_hash_chain(&seed, 10);
    let hash2: [u8; 32] = extend_hash_chain(DEFAULT_HASH, &seed, 10);
    assert_eq!(hash1, hash2, "Hash chains should produce identical results.");
}

#[test]
fn test_hash_chain_performance() {
    let seed: [u8; 32] = [0u8; 32];
    let iterations: u64 = 10_000;

    let start: Instant = Instant::now();
    let _ = extend_hash_chain(DEFAULT_HASH, &seed, iterations);
    let optimized_duration: Duration = start.elapsed();

    println!("Optimized: {:?} for {} iterations.", optimized_duration, iterations);
}

#[test]
fn test_hash_chain_extension() {
    let seed: [u8; 32] = [1u8; 32]; // Some seed data.
    let iterations: u64 = 10;
    // Test hash chain extension.
    let result: [u8; 32] = extend_hash_chain(DEFAULT_HASH, &seed, iterations);
    // Verify by manually applying hash iterations.
    let mut expected: [u8; 32] = seed;

    for _ in 0..iterations {
        expected = hash(DEFAULT_HASH, &expected);
    }

    assert_eq!(result, expected, "Hash chain extension produced incorrect result.");
}

#[test]
fn test_hash_chain_verification() {
    let seed: [u8; 32] = [1u8; 32]; // Initial hash.
    let iterations: u64 = DEFAULT_HASHES_PER_TICK;
    let event_data: &'static [u8; 10] = b"Test event";
    // Create a valid hash chain with event.
    let mut current_hash: [u8; 32] = hash_with_data(DEFAULT_HASH, &seed, event_data);

    current_hash = extend_hash_chain(DEFAULT_HASH, &current_hash, iterations);
    // Verify the valid hash chain.
    assert!(
        verify_hash_chain(DEFAULT_HASH, &seed, &current_hash, iterations, Some(event_data)),
        "Valid hash chain verification failed."
    );

    // Modify hash and ensure verification fails.
    let mut bad_hash: [u8; 32] = current_hash;
    bad_hash[0] ^= 0xFF; // Corrupt the hash.

    assert!(
        !verify_hash_chain(DEFAULT_HASH, &seed, &bad_hash, iterations, Some(event_data)),
        "Corrupted hash chain verification didn't fail."
    );
}

#[test]
fn test_constant_time_eq() {
    // We can't test the actual constant-time property, but we can test correctness.
    let hash1: [u8; 32] = [0u8; 32];
    let hash2: [u8; 32] = [0u8; 32];
    let hash3: [u8; 32] = {
        let mut h: [u8; 32] = [0u8; 32];
        h[31] = 1; // Differs at the last byte.
        h
    };

    // Test the function through verify_hash_chain which uses constant_time_eq.
    assert!(verify_hash_chain(DEFAULT_HASH, &hash1, &hash2, 0, None), "Equal hashes not recognized as equal.");
    assert!(!verify_hash_chain(DEFAULT_HASH, &hash1, &hash3, 0, None), "Different hashes not recognized as different.");
}

#[test]
fn constant_time_eq_is_pointwise_equality() {
    let base: [u8; 32] = [7u8; 32];
    assert!(constant_time_eq(&base, &base));
    for position in 0..32 {
        for bit in 0..8 {
            let mut other: [u8; 32] = base;
            other[position] ^= 1u8 << bit;
            assert!(!constant_time_eq(&base, &other));
            assert!(!constant_time_eq(&other, &base));
        }
    }
}

#[test]
fn sha256_matches_known_digests() {
    let empty: [u8; 32] = hash(ALGORITHM_SHA256, b"");
    assert_eq!(
        empty.to_vec(),
        decode_hex("e3b0c44298fc1c149afbf4c8996fb92427ae41e4649b934ca495991b7852b855")
    );
    let abc: [u8; 32] = hash(ALGORITHM_SHA256, b"abc");
    assert_eq!(
        abc.to_vec(),
        decode_hex("ba7816bf8f01cfea414140de5dae2223b00361a396177a9cb410ff61f20015ad")
    );
}

#[test]
fn blake3_matches_known_digests() {
    let empty: [u8; 32] = hash(ALGORITHM_BLAKE3, b"");
    assert_eq!(
        empty.to_vec(),
        decode_hex("af1349b9f5f9a1a6a0404dea36dcc9499bcb25c9adc112b7cc9a93cae41f3262")
    );
    let abc: [u8; 32] = hash(ALGORITHM_BLAKE3, b"abc");
    assert_eq!(
        abc.to_vec(),
        decode_hex("6437b3ac38465133ffb63b75273a8db548c558465d79db03fd359c6cd5bd9d85")
    );
    assert_eq!(abc, *blake3::hash(b"abc").as_bytes());
}

#[test]
fn unknown_algorithm_falls_back_to_sha256() {
    let data: &[u8] = b"fallback";
    assert_eq!(hash(7, data), hash(ALGORITHM_SHA256, data));
    assert_eq!(hash(255, data), hash(ALGORITHM_SHA256, data));
    assert_ne!(hash(ALGORITHM_BLAKE3, data), hash(ALGORITHM_SHA256, data));
    assert_eq!(get_current_algorithm(0), 0);
    assert_eq!(get_current_algorithm(1), 1);
    assert_eq!(get_current_algorithm(2), 0);
    assert_eq!(get_current_algorithm(200), 0);
    assert_eq!(get_algorithm_name(0), "SHA256");
    assert_eq!(get_algorithm_name(1), "BLAKE3");
    assert_eq!(get_algorithm_name(9), "SHA256");
}

#[test]
fn set_hash_algorithm_stores_the_selection() {
    let mut selected: u8 = DEFAULT_HASH;
    set_hash_algorithm(&mut selected, 1);
    assert_eq!(selected, 1);
    set_hash_algorithm(&mut selected, 42);
    assert_eq!(selected, 0);
    set_hash_algorithm(&mut selected, 0);
    assert_eq!(selected, 0);
}

#[test]
fn hash_with_data_is_single_pass_over_the_concatenation() {
    let prev: [u8; 32] = [9u8; 32];
    let data: &[u8] = b"Test event data";
    let mut joined: Vec<u8> = prev.to_vec();
    joined.extend_from_slice(data);
    assert_eq!(hash_with_data(ALGORITHM_SHA256, &prev, data), hash(ALGORITHM_SHA256, &joined));
    assert_eq!(hash_with_data(ALGORITHM_BLAKE3, &prev, data), hash(ALGORITHM_BLAKE3, &joined));

    let mut context: Context = Context::new(&SHA256);
    context.update(&prev);
    context.update(data);
    let streamed: Digest = context.finish();
    assert_eq!(hash_with_data(ALGORITHM_SHA256, &prev, data).to_vec(), streamed.as_ref().to_vec());

    let mut hasher = blake3::Hasher::new();
    hasher.update(&prev);
    hasher.update(data);
    assert_eq!(hash_with_data(ALGORITHM_BLAKE3, &prev, data), *hasher.finalize().as_bytes());

    // Not double-hashed.
    let digest_of_data: [u8; 32] = hash(ALGORITHM_SHA256, data);
    assert_ne!(
        hash_with_data(ALGORITHM_SHA256, &prev, data),
        hash_with_data(ALGORITHM_SHA256, &prev, &digest_of_data)
    );
    // An empty event still hashes the prefix.
    assert_eq!(hash_with_data(ALGORITHM_SHA256, &prev, b""), hash(ALGORITHM_SHA256, &prev));
}

#[test]
fn extend_hash_chain_agrees_on_every_path() {
    let seed: [u8; 32] = [3u8; 32];
    assert_eq!(extend_hash_chain(DEFAULT_HASH, &seed, 0), seed);
    for iterations in 0..40u64 {
        assert_eq!(extend_hash_chain(DEFAULT_HASH, &seed, iterations), manual_hash_chain(&seed, iterations));
    }
    let mut one_by_one: [u8; 32] = seed;
    for _ in 0..27 {
        one_by_one = hash(ALGORITHM_BLAKE3, &one_by_one);
    }
    assert_eq!(extend_hash_chain(ALGORITHM_BLAKE3, &seed, 27), one_by_one);
    // Extending in two steps is extending in one.
    let first: [u8; 32] = extend_hash_chain(DEFAULT_HASH, &seed, 13);
    assert_eq!(extend_hash_chain(DEFAULT_HASH, &first, 8), extend_hash_chain(DEFAULT_HASH, &seed, 21));
}

#[test]
fn extended_chain_always_verifies() {
    let starts: [[u8; 32]; 3] = [[0u8; 32], [1u8; 32], [0xAB; 32]];
    for start in starts.iter() {
        for iterations in [0u64, 1, 7, 8, 9, 64, 1000] {
            for algorithm in [ALGORITHM_SHA256, ALGORITHM_BLAKE3] {
                let end: [u8; 32] = extend_hash_chain(algorithm, start, iterations);
                assert!(verify_hash_chain(algorithm, start, &end, iterations, None));
            }
        }
    }
    let end: [u8; 32] = extend_hash_chain(ALGORITHM_SHA256, &starts[1], 9);
    assert!(!verify_hash_chain(ALGORITHM_SHA256, &starts[1], &end, 10, None));
    assert!(!verify_hash_chain(ALGORITHM_BLAKE3, &starts[1], &end, 9, None));
    assert!(!verify_hash_chain(ALGORITHM_SHA256, &starts[1], &end, 9, Some(b"")));
}

#[test]
fn compute_hashes_chains_from_zero() {
    let zero: [u8; 32] = [0u8; 32];
    assert_eq!(compute_hashes(DEFAULT_HASH, 0), zero);
    assert_eq!(compute_hashes(DEFAULT_HASH, 1), hash(DEFAULT_HASH, &zero));
    assert_eq!(compute_hashes(DEFAULT_HASH, 100), manual_hash_chain(&zero, 100));
    assert_eq!(compute_hashes(ALGORITHM_BLAKE3, 9), extend_hash_chain(ALGORITHM_BLAKE3, &zero, 9));
}
