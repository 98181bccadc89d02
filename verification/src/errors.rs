//! The closed set of failures an operation can report. Every error is fatal to
//! the operation that raised it: nothing is retried and nothing is downgraded.

use vstd::prelude::*;

verus! {

/// What went wrong, by kind.
///
/// Authentication failure deliberately does not distinguish a wrong password
/// from corrupted data: both surface as the same variant, so that callers
/// cannot build an oracle out of the difference.
#[derive(Clone, Copy, Debug, PartialEq, Eq, Structural)]
pub enum CryptoError {
    /// Key-derivation cost parameters outside the recognized bounds.
    Configuration,
    /// A framed input that is too short or whose magic header does not match.
    Format,
    /// The authenticated cipher rejected the ciphertext or tag.
    Authentication,
    /// An input that violates a stated precondition: an empty or oversized
    /// password, key material shorter than required, a key file of the wrong
    /// length, or an out-of-range requested size.
    Precondition,
}

impl CryptoError {
    /// The description each kind carries, as characters.
    pub open spec fn spec_describe(self) -> Seq<char> {
        match self {
            CryptoError::Configuration => "key-derivation parameters are out of range"@,
            CryptoError::Format => "input is not a recognized encrypted file"@,
            CryptoError::Authentication => "decryption failed: wrong password or corrupted data"@,
            CryptoError::Precondition => "input violates a precondition of the operation"@,
        }
    }

    /// A short human-readable description, for callers that report the error.
    pub fn describe(&self) -> (r: &'static str)
        ensures
            r@ == self.spec_describe(),
    {
        match self {
            CryptoError::Configuration => "key-derivation parameters are out of range",
            CryptoError::Format => "input is not a recognized encrypted file",
            CryptoError::Authentication => "decryption failed: wrong password or corrupted data",
            CryptoError::Precondition => "input violates a precondition of the operation",
        }
    }
}

} // verus!
