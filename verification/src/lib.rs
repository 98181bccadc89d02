//! A small family of file-encryption building blocks sharing one pattern:
//! derive or obtain a symmetric key, apply an authenticated cipher or a raw
//! keystream to the file contents, and frame the result in a self-describing
//! binary layout that the matching decrypt path parses unambiguously.
//!
//! The cryptographic primitives themselves (the Argon2id password hash, the
//! AES-256-GCM and XChaCha20-Poly1305 ciphers, the ChaCha20 stream generator
//! and the operating system's randomness) are consumed through their published
//! contracts; everything around them — parameter validation, framing, the XOR
//! transform, the chunking of keystreams and the atomic-replace discipline —
//! is verified here.

pub mod aead;
pub mod bytes;
pub mod envelope;
pub mod errors;
pub mod framing;
pub mod kdf;
pub mod keygen;
pub mod keystream;
pub mod random;
pub mod replace;
pub mod xor;
