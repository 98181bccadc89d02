//! The process-wide random source: cryptographically secure bytes from the
//! operating system, used for salts, nonces and fully random keys. Nothing is
//! claimed of the values themselves — only of how many there are — so every
//! caller's contract holds whatever comes back.

use vstd::prelude::*;

use rand::RngCore;

verus! {

/// Relies on rand's `OsRng` (`RngCore::fill_bytes`): fills the buffer with
/// bytes from the operating system's secure generator. Of a random value only
/// the length can be stated. If the operating system's generator itself
/// fails, the call aborts rather than return weak bytes.
#[verifier::external_body]
pub fn random_bytes(n: usize) -> (r: Vec<u8>)
    ensures
        r@.len() == n,
{
    let mut buf = vec![0u8; n];
    rand::rngs::OsRng.fill_bytes(&mut buf);
    buf
}

} // verus!
