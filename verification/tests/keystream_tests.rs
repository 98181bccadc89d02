//! Determinism and chunking of the keystream generator and of the
//! password-based derivation behind it.

use secureenc::errors::CryptoError;
use secureenc::kdf::{KdfParams, derive_key};
use secureenc::keygen::{check_stream_request, deterministic_stream_key};
use secureenc::keystream::{CHUNK_SIZE, KeystreamGen, MAX_STREAM_SIZE, keystream_bytes};

fn quick_params() -> KdfParams {
    KdfParams { mem_kib: 8192, iterations: 1, parallelism: 1 }
}

fn test_seed() -> Vec<u8> {
    (0u8..32).collect()
}

#[test]
fn derive_is_deterministic() {
    let params = quick_params();
    let password: Vec<u8> = b"swordfish".to_vec();
    let salt: Vec<u8> = b"DeterministicKeySalt_v1".to_vec();
    let first = derive_key(&password, &salt, &params).unwrap();
    let second = derive_key(&password, &salt, &params).unwrap();
    assert_eq!(first, second);
    assert_eq!(first.len(), 32);
}

#[test]
fn derive_differs_across_salts() {
    let params = quick_params();
    let password: Vec<u8> = b"swordfish".to_vec();
    let first = derive_key(&password, &vec![1u8; 16], &params).unwrap();
    let second = derive_key(&password, &vec![2u8; 16], &params).unwrap();
    assert_ne!(first, second);
}

#[test]
fn generator_is_deterministic() {
    let seed = test_seed();
    let a = keystream_bytes(&seed, 1000);
    let b = keystream_bytes(&seed, 1000);
    assert_eq!(a, b);
    let mut first = KeystreamGen::new(&seed, 1000);
    let mut second = KeystreamGen::new(&seed, 1000);
    assert_eq!(first.next_chunk(), second.next_chunk());
}

#[test]
fn generator_matches_one_shot_stream() {
    let seed = test_seed();
    let whole = keystream_bytes(&seed, 300);
    let mut generator = KeystreamGen::new(&seed, 300);
    let chunk = generator.next_chunk();
    assert_eq!(chunk, whole);
    assert!(generator.next_chunk().is_empty());
}

#[test]
fn generator_crosses_internal_chunk_boundary() {
    let seed = test_seed();
    let total = CHUNK_SIZE + 4464;
    let whole = keystream_bytes(&seed, total);
    assert_eq!(whole.len(), total);
    let mut generator = KeystreamGen::new(&seed, total as u64);
    let first = generator.next_chunk();
    assert_eq!(first.len(), CHUNK_SIZE);
    let second = generator.next_chunk();
    assert_eq!(second.len(), 4464);
    let third = generator.next_chunk();
    assert_eq!(third.len(), 0);
    let mut collected = first;
    collected.extend(second);
    assert_eq!(collected, whole);
}

#[test]
fn generator_never_overruns_total() {
    let seed = test_seed();
    let mut generator = KeystreamGen::new(&seed, 10);
    let chunk = generator.next_chunk();
    assert_eq!(chunk.len(), 10);
    assert_eq!(generator.next_chunk().len(), 0);
    assert_eq!(generator.next_chunk().len(), 0);
}

#[test]
fn longer_stream_extends_shorter() {
    let seed = test_seed();
    let short = keystream_bytes(&seed, 100);
    let long = keystream_bytes(&seed, 250);
    assert_eq!(&long[0..100], short.as_slice());
    let longer = keystream_bytes(&seed, CHUNK_SIZE * 2 + 5);
    assert_eq!(&longer[0..250], long.as_slice());
}

#[test]
fn stream_key_is_deterministic() {
    let params = quick_params();
    let password: Vec<u8> = b"swordfish".to_vec();
    let salt: Vec<u8> = b"DeterministicKeySalt_v1".to_vec();
    let first = deterministic_stream_key(&password, &salt, &params, 500).unwrap();
    let second = deterministic_stream_key(&password, &salt, &params, 500).unwrap();
    assert_eq!(first, second);
    assert_eq!(first.len(), 500);
}

#[test]
fn stream_request_bounds() {
    let params = quick_params();
    let password: Vec<u8> = b"pw".to_vec();
    assert!(check_stream_request(1, &password, &params).is_ok());
    assert!(check_stream_request(MAX_STREAM_SIZE, &password, &params).is_ok());
    assert_eq!(
        check_stream_request(0, &password, &params).unwrap_err(),
        CryptoError::Precondition
    );
    assert_eq!(
        check_stream_request(MAX_STREAM_SIZE + 1, &password, &params).unwrap_err(),
        CryptoError::Precondition
    );
    let empty: Vec<u8> = Vec::new();
    assert_eq!(
        check_stream_request(10, &empty, &params).unwrap_err(),
        CryptoError::Precondition
    );
    let bad = KdfParams { mem_kib: 8192, iterations: 11, parallelism: 1 };
    assert_eq!(
        check_stream_request(10, &password, &bad).unwrap_err(),
        CryptoError::Configuration
    );
}

#[test]
fn stream_key_rejects_zero_length() {
    let params = quick_params();
    let password: Vec<u8> = b"pw".to_vec();
    let salt: Vec<u8> = b"somesaltvalue".to_vec();
    let r = deterministic_stream_key(&password, &salt, &params, 0);
    assert_eq!(r.unwrap_err(), CryptoError::Precondition);
}
