//! Password-based key derivation: memory-hard Argon2id derivation of 32 bytes
//! of key material from a password and a salt, with the cost parameters
//! validated against recognized bounds before any derivation runs. Every key
//! that is not drawn at random comes from this derivation.

use vstd::prelude::*;

use crate::errors::CryptoError;

verus! {

/// Smallest accepted Argon2 memory cost, in KiB.
pub const MIN_MEMORY_KIB: u32 = 8192;
/// Largest accepted Argon2 memory cost, in KiB.
pub const MAX_MEMORY_KIB: u32 = 1048576;
/// Smallest accepted Argon2 iteration count.
pub const MIN_ITERATIONS: u32 = 1;
/// Largest accepted Argon2 iteration count.
pub const MAX_ITERATIONS: u32 = 10;
/// Smallest accepted Argon2 parallelism.
pub const MIN_PARALLELISM: u32 = 1;
/// Largest accepted Argon2 parallelism.
pub const MAX_PARALLELISM: u32 = 8;

/// Longest accepted password, in bytes.
pub const MAX_PASSWORD_LEN: usize = 1024;

/// Length of every derived key, in bytes.
pub const KEY_LEN: usize = 32;

/// Argon2 cost parameters: memory in KiB, iteration count, and parallelism.
/// The derived output is always [`KEY_LEN`] bytes.
#[derive(Clone, Copy, Debug, PartialEq, Eq, Structural)]
pub struct KdfParams {
    pub mem_kib: u32,
    pub iterations: u32,
    pub parallelism: u32,
}

impl KdfParams {
    /// The recognized bounds on each cost parameter.
    pub open spec fn valid(self) -> bool {
        &&& MIN_MEMORY_KIB <= self.mem_kib <= MAX_MEMORY_KIB
        &&& MIN_ITERATIONS <= self.iterations <= MAX_ITERATIONS
        &&& MIN_PARALLELISM <= self.parallelism <= MAX_PARALLELISM
    }

    /// Check the parameters against the recognized bounds; out of range is a
    /// fatal configuration error.
    pub fn check(&self) -> (r: Result<(), CryptoError>)
        ensures
            r is Ok <==> self.valid(),
            r matches Err(e) ==> e == CryptoError::Configuration,
    {
        if self.mem_kib < MIN_MEMORY_KIB || self.mem_kib > MAX_MEMORY_KIB {
            Err(CryptoError::Configuration)
        } else if self.iterations < MIN_ITERATIONS || self.iterations > MAX_ITERATIONS {
            Err(CryptoError::Configuration)
        } else if self.parallelism < MIN_PARALLELISM || self.parallelism > MAX_PARALLELISM {
            Err(CryptoError::Configuration)
        } else {
            Ok(())
        }
    }

    /// The cost parameters the password-encryption tool has always used:
    /// 64 MiB of memory, 3 iterations, 4 lanes.
    pub fn standard() -> (r: KdfParams)
        ensures
            r.mem_kib == 65536 && r.iterations == 3 && r.parallelism == 4,
            r.valid(),
    {
        KdfParams { mem_kib: 65536, iterations: 3, parallelism: 4 }
    }

    /// The Argon2 crate's own default cost parameters: 19 MiB of memory,
    /// 2 iterations, 1 lane.
    pub fn argon2_defaults() -> (r: KdfParams)
        ensures
            r.mem_kib == 19456 && r.iterations == 2 && r.parallelism == 1,
            r.valid(),
    {
        KdfParams { mem_kib: 19456, iterations: 2, parallelism: 1 }
    }
}

/// A password the derivation accepts: non-empty and at most
/// [`MAX_PASSWORD_LEN`] bytes.
pub open spec fn password_ok(password: Seq<u8>) -> bool {
    0 < password.len() <= MAX_PASSWORD_LEN
}

/// A salt the derivation accepts. The framed formats store 16-byte salts; the
/// deterministic keystream tool uses a longer fixed one, so the bound here is
/// the underlying hash's own: between 8 and 2^32 - 1 bytes.
pub open spec fn salt_ok(salt: Seq<u8>) -> bool {
    8 <= salt.len() <= 0xFFFFFFFF
}

/// The 32 bytes that Argon2id (version 0x13) derives from a password, a salt
/// and the given cost parameters. Deterministic: the same inputs always give
/// the same output, which is what lets a stored salt reproduce the key.
pub uninterp spec fn argon2id_of(
    password: Seq<u8>,
    salt: Seq<u8>,
    mem_kib: u32,
    iterations: u32,
    parallelism: u32,
) -> Seq<u8>;

/// Relies on argon2's `Argon2::hash_password_into` with `Algorithm::Argon2id`
/// and `Version::V0x13`: a deterministic function of the password, the salt
/// and the cost parameters, 32 bytes long. The preconditions mirror the
/// crate's own validation (`Params::new` and its input checks), under which
/// every error path is closed, so the calls cannot fail.
#[verifier::external_body]
fn argon2id_derive(
    password: &Vec<u8>,
    salt: &Vec<u8>,
    mem_kib: u32,
    iterations: u32,
    parallelism: u32,
) -> (r: Vec<u8>)
    requires
        password@.len() <= 0xFFFFFFFF,
        8 <= salt@.len() <= 0xFFFFFFFF,
        mem_kib >= 8,
        mem_kib >= 8 * parallelism,
        iterations >= 1,
        1 <= parallelism <= 0xFFFFFF,
    ensures
        r@ == argon2id_of(password@, salt@, mem_kib, iterations, parallelism),
        r@.len() == KEY_LEN,
{
    let params = argon2::Params::new(mem_kib, iterations, parallelism, Some(32)).unwrap();
    let ctx = argon2::Argon2::new(argon2::Algorithm::Argon2id, argon2::Version::V0x13, params);
    let mut key = [0u8; 32];
    ctx.hash_password_into(password.as_slice(), salt.as_slice(), &mut key).unwrap();
    key.to_vec()
}

/// Derive a 32-byte key from a password and a salt with Argon2id.
///
/// The password must be non-empty and at most [`MAX_PASSWORD_LEN`] bytes, the
/// salt within the hash's accepted lengths, and the cost parameters within
/// the recognized bounds; each violation is reported, never worked around.
/// For identical inputs the key is identical, which both the decrypt paths
/// (recomputing the key from a stored salt) and the deterministic generator
/// depend on.
pub fn derive_key(password: &Vec<u8>, salt: &Vec<u8>, params: &KdfParams) -> (r: Result<
    Vec<u8>,
    CryptoError,
>)
    ensures
        r is Ok <==> password_ok(password@) && salt_ok(salt@) && params.valid(),
        r matches Ok(k) ==> k@ == argon2id_of(
            password@,
            salt@,
            params.mem_kib,
            params.iterations,
            params.parallelism,
        ) && k@.len() == KEY_LEN,
        r matches Err(e) ==> e == (if !params.valid() {
            CryptoError::Configuration
        } else {
            CryptoError::Precondition
        }),
{
    params.check()?;
    if password.len() == 0 || password.len() > MAX_PASSWORD_LEN {
        return Err(CryptoError::Precondition);
    }
    if salt.len() < 8 || salt.len() > 0xFFFFFFFF {
        return Err(CryptoError::Precondition);
    }
    Ok(argon2id_derive(password, salt, params.mem_kib, params.iterations, params.parallelism))
}

} // verus!
