//! The authenticated-cipher adapters: AES-256-GCM with a 96-bit nonce and
//! XChaCha20-Poly1305 with a 192-bit nonce. Both take a 32-byte key, append a
//! 16-byte authentication tag to the ciphertext, and on decryption fail
//! closed: a wrong key, a wrong nonce, or any tampering with the ciphertext
//! or tag yields an error, never unauthenticated bytes.

use vstd::prelude::*;

use aes_gcm::KeyInit;
use aes_gcm::aead::Aead;
use aes_gcm::aead::generic_array::GenericArray;

verus! {

/// Length of an AEAD key, in bytes.
pub const AEAD_KEY_LEN: usize = 32;
/// Length of an AES-256-GCM nonce, in bytes.
pub const GCM_NONCE_LEN: usize = 12;
/// Length of an XChaCha20-Poly1305 nonce, in bytes.
pub const XCHACHA_NONCE_LEN: usize = 24;
/// Length of the authentication tag both ciphers append, in bytes.
pub const TAG_LEN: usize = 16;

/// Largest plaintext either adapter accepts, in bytes: comfortably inside
/// both ciphers' own message bounds, so encryption cannot fail.
pub const MAX_PLAINTEXT_LEN: u64 = 68719476736;

/// The ciphertext-with-tag that AES-256-GCM produces for a key, a nonce and
/// a plaintext. Deterministic in those three inputs.
pub uninterp spec fn gcm_seal(key: Seq<u8>, nonce: Seq<u8>, plaintext: Seq<u8>) -> Seq<u8>;

/// What AES-256-GCM decryption yields for a key, a nonce and a
/// ciphertext-with-tag: the plaintext when the tag authenticates, nothing
/// otherwise.
pub uninterp spec fn gcm_open(key: Seq<u8>, nonce: Seq<u8>, ciphertext: Seq<u8>) -> Option<
    Seq<u8>,
>;

/// The ciphertext-with-tag that XChaCha20-Poly1305 produces for a key, a
/// nonce and a plaintext. Deterministic in those three inputs.
pub uninterp spec fn xchacha_seal(key: Seq<u8>, nonce: Seq<u8>, plaintext: Seq<u8>) -> Seq<u8>;

/// What XChaCha20-Poly1305 decryption yields for a key, a nonce and a
/// ciphertext-with-tag: the plaintext when the tag authenticates, nothing
/// otherwise.
pub uninterp spec fn xchacha_open(key: Seq<u8>, nonce: Seq<u8>, ciphertext: Seq<u8>) -> Option<
    Seq<u8>,
>;

/// Relies on aes_gcm's `Aes256Gcm` (`Aead::encrypt`): appends the 16-byte tag
/// to the ciphertext, deterministically in key, nonce and plaintext, and what
/// it returns decrypts back to the plaintext under the same key and nonce.
/// The only error path is a plaintext beyond the GCM message bound, which the
/// length precondition rules out.
#[verifier::external_body]
pub(crate) fn gcm_encrypt(key: &Vec<u8>, nonce: &Vec<u8>, plaintext: &Vec<u8>) -> (r: Vec<u8>)
    requires
        key@.len() == AEAD_KEY_LEN,
        nonce@.len() == GCM_NONCE_LEN,
        plaintext@.len() <= MAX_PLAINTEXT_LEN,
    ensures
        r@ == gcm_seal(key@, nonce@, plaintext@),
        r@.len() == plaintext@.len() + TAG_LEN,
        gcm_open(key@, nonce@, r@) == Some(plaintext@),
{
    let cipher = aes_gcm::Aes256Gcm::new(GenericArray::from_slice(key.as_slice()));
    cipher.encrypt(GenericArray::from_slice(nonce.as_slice()), plaintext.as_slice()).unwrap()
}

/// Relies on aes_gcm's `Aes256Gcm` (`Aead::decrypt`): verifies the tag before
/// releasing anything. It returns the plaintext exactly when the tag
/// authenticates and an error on everything else, never unauthenticated
/// bytes. The 16-byte tag is split off the end of the input, so a recovered
/// plaintext is exactly that much shorter.
#[verifier::external_body]
pub(crate) fn gcm_decrypt(key: &Vec<u8>, nonce: &Vec<u8>, ciphertext: &Vec<u8>) -> (r: Option<Vec<u8>>)
    requires
        key@.len() == AEAD_KEY_LEN,
        nonce@.len() == GCM_NONCE_LEN,
    ensures
        r matches Some(p) ==> gcm_open(key@, nonce@, ciphertext@) == Some(p@),
        r matches Some(p) ==> p@.len() + TAG_LEN == ciphertext@.len(),
        r is None ==> gcm_open(key@, nonce@, ciphertext@) is None,
{
    let cipher = aes_gcm::Aes256Gcm::new(GenericArray::from_slice(key.as_slice()));
    match cipher.decrypt(GenericArray::from_slice(nonce.as_slice()), ciphertext.as_slice()) {
        Ok(p) => Some(p),
        Err(_) => None,
    }
}

/// Relies on chacha20poly1305's `XChaCha20Poly1305` (`Aead::encrypt`):
/// appends the 16-byte tag to the ciphertext, deterministically in key, nonce
/// and plaintext, and what it returns decrypts back to the plaintext under
/// the same key and nonce. The only error path is a plaintext beyond the
/// cipher's block-count bound, which the length precondition rules out.
#[verifier::external_body]
pub(crate) fn xchacha_encrypt(key: &Vec<u8>, nonce: &Vec<u8>, plaintext: &Vec<u8>) -> (r: Vec<u8>)
    requires
        key@.len() == AEAD_KEY_LEN,
        nonce@.len() == XCHACHA_NONCE_LEN,
        plaintext@.len() <= MAX_PLAINTEXT_LEN,
    ensures
        r@ == xchacha_seal(key@, nonce@, plaintext@),
        r@.len() == plaintext@.len() + TAG_LEN,
        xchacha_open(key@, nonce@, r@) == Some(plaintext@),
{
    let cipher = chacha20poly1305::XChaCha20Poly1305::new(GenericArray::from_slice(
        key.as_slice(),
    ));
    cipher.encrypt(GenericArray::from_slice(nonce.as_slice()), plaintext.as_slice()).unwrap()
}

/// Relies on chacha20poly1305's `XChaCha20Poly1305` (`Aead::decrypt`):
/// verifies the tag before releasing anything. It returns the plaintext
/// exactly when the tag authenticates and an error on everything else, never
/// unauthenticated bytes. The 16-byte tag is split off the end of the input,
/// so a recovered plaintext is exactly that much shorter.
#[verifier::external_body]
pub(crate) fn xchacha_decrypt(key: &Vec<u8>, nonce: &Vec<u8>, ciphertext: &Vec<u8>) -> (r: Option<Vec<u8>>)
    requires
        key@.len() == AEAD_KEY_LEN,
        nonce@.len() == XCHACHA_NONCE_LEN,
    ensures
        r matches Some(p) ==> xchacha_open(key@, nonce@, ciphertext@) == Some(p@),
        r matches Some(p) ==> p@.len() + TAG_LEN == ciphertext@.len(),
        r is None ==> xchacha_open(key@, nonce@, ciphertext@) is None,
{
    let cipher = chacha20poly1305::XChaCha20Poly1305::new(GenericArray::from_slice(
        key.as_slice(),
    ));
    match cipher.decrypt(GenericArray::from_slice(nonce.as_slice()), ciphertext.as_slice()) {
        Ok(p) => Some(p),
        Err(_) => None,
    }
}

} // verus!
