//! Producing and loading key material: a fully random 32-byte key, a
//! deterministic 32-byte key derived from a password with fixed salt and
//! pepper bytes through the memory-hard derivation, a deterministic
//! keystream of requested length, and the validation of a stored key file.

use vstd::prelude::*;

use crate::bytes::push_all;
use crate::errors::CryptoError;
use crate::kdf::{KdfParams, KEY_LEN, argon2id_of, derive_key, password_ok, salt_ok};
use crate::keystream::{MAX_STREAM_SIZE, keystream, keystream_bytes};
use crate::random::random_bytes;

verus! {

/// A fresh, fully random 32-byte key from the random source.
pub fn random_key() -> (r: Vec<u8>)
    ensures
        r@.len() == KEY_LEN,
{
    random_bytes(KEY_LEN)
}

/// A deterministic 32-byte key for a password: the memory-hard derivation
/// over the password, salted with the fixed salt and pepper bytes folded
/// together. The same password with the same constants and parameters always
/// yields the same key.
pub fn deterministic_key(
    password: &Vec<u8>,
    salt: &Vec<u8>,
    pepper: &Vec<u8>,
    params: &KdfParams,
) -> (r: Result<Vec<u8>, CryptoError>)
    ensures
        r is Ok <==> password_ok(password@) && salt_ok(salt@ + pepper@) && params.valid(),
        r matches Ok(k) ==> k@ == argon2id_of(
            password@,
            salt@ + pepper@,
            params.mem_kib,
            params.iterations,
            params.parallelism,
        ) && k@.len() == KEY_LEN,
        r matches Err(e) ==> e == (if !params.valid() {
            CryptoError::Configuration
        } else {
            CryptoError::Precondition
        }),
{
    let mut seasoning: Vec<u8> = Vec::new();
    push_all(&mut seasoning, salt);
    push_all(&mut seasoning, pepper);
    derive_key(password, &seasoning, params)
}

/// Validate the contents of a key file meant to hold one 32-byte key: any
/// other length is a reported precondition violation.
pub fn load_key_bytes(data: &Vec<u8>) -> (r: Result<Vec<u8>, CryptoError>)
    ensures
        r is Ok <==> data@.len() == KEY_LEN,
        r matches Ok(k) ==> k@ == data@,
        r matches Err(e) ==> e == CryptoError::Precondition,
{
    if data.len() != KEY_LEN {
        return Err(CryptoError::Precondition);
    }
    let mut out: Vec<u8> = Vec::new();
    let mut i: usize = 0;
    while i < data.len()
        invariant
            i <= data@.len(),
            out@ == data@.subrange(0, i as int),
        decreases data@.len() - i,
    {
        out.push(data[i]);
        proof {
            assert(data@.subrange(0, i as int) + seq![data@[i as int]] =~= data@.subrange(
                0,
                i + 1,
            ));
        }
        i = i + 1;
    }
    proof {
        assert(data@.subrange(0, data@.len() as int) =~= data@);
    }
    Ok(out)
}

/// Validate a request for a deterministic keystream: the size must be
/// between 1 byte and [`MAX_STREAM_SIZE`], the password non-empty and within
/// its bound, and the cost parameters within theirs. Size and password
/// violations are precondition errors; parameter violations are
/// configuration errors.
pub fn check_stream_request(size: u64, password: &Vec<u8>, params: &KdfParams) -> (r: Result<
    (),
    CryptoError,
>)
    ensures
        r is Ok <==> (1 <= size <= MAX_STREAM_SIZE && password_ok(password@) && params.valid()),
        r matches Err(e) ==> e == (if !(1 <= size <= MAX_STREAM_SIZE) || !password_ok(password@) {
            CryptoError::Precondition
        } else {
            CryptoError::Configuration
        }),
{
    if size < 1 || size > MAX_STREAM_SIZE {
        return Err(CryptoError::Precondition);
    }
    if password.len() == 0 || password.len() > crate::kdf::MAX_PASSWORD_LEN {
        return Err(CryptoError::Precondition);
    }
    params.check()?;
    Ok(())
}

/// Derive the first `length` bytes of the deterministic keystream for a
/// password: the password and the fixed salt seed the stream through the
/// memory-hard derivation, and the stream is materialized chunk by chunk.
/// The same password, salt and parameters always yield the same bytes.
pub fn deterministic_stream_key(
    password: &Vec<u8>,
    salt: &Vec<u8>,
    params: &KdfParams,
    length: usize,
) -> (r: Result<Vec<u8>, CryptoError>)
    ensures
        r is Ok <==> (1 <= length <= MAX_STREAM_SIZE && password_ok(password@) && salt_ok(salt@)
            && params.valid()),
        r matches Ok(k) ==> k@ == keystream(
            argon2id_of(password@, salt@, params.mem_kib, params.iterations, params.parallelism),
            length as nat,
        ),
        r matches Err(e) ==> e == (if !(1 <= length <= MAX_STREAM_SIZE) {
            CryptoError::Precondition
        } else if !params.valid() {
            CryptoError::Configuration
        } else {
            CryptoError::Precondition
        }),
{
    if length < 1 || (length as u64) > MAX_STREAM_SIZE {
        return Err(CryptoError::Precondition);
    }
    let seed = derive_key(password, salt, params)?;
    Ok(keystream_bytes(&seed, length))
}

} // verus!
