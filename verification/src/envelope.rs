//! The complete encrypt and decrypt operations, one pair per tool variant:
//! password-derived key with AES-256-GCM under the magic header,
//! password-derived key with XChaCha20-Poly1305 under the salt ‖ nonce
//! layout, and a raw 32-byte key with XChaCha20-Poly1305 under the bare
//! nonce layout. Each decrypt function's result is pinned, case by case, to
//! a spec-level description of the whole operation, and each encrypt
//! function guarantees that decrypting its output with the same secret
//! yields the plaintext back.

use vstd::prelude::*;

use crate::aead::{
    AEAD_KEY_LEN, GCM_NONCE_LEN, MAX_PLAINTEXT_LEN, TAG_LEN, XCHACHA_NONCE_LEN, gcm_decrypt,
    gcm_encrypt, gcm_open, gcm_seal, xchacha_decrypt, xchacha_encrypt, xchacha_open, xchacha_seal,
};
use crate::errors::CryptoError;
use crate::framing::{
    GCM_HEADER_LEN, SALT_LEN, SALTED_HEADER_LEN, frame_gcm, frame_keyed, frame_salted, gcm_body,
    gcm_framed, gcm_nonce, gcm_salt, keyed_body, keyed_framed, keyed_nonce, magic_bytes,
    parse_gcm, parse_keyed, parse_salted, salted_body, salted_framed, salted_nonce, salted_salt,
    lemma_gcm_frame_fields, lemma_keyed_frame_fields, lemma_salted_frame_fields,
};
use crate::kdf::{KdfParams, argon2id_of, derive_key, password_ok};
use crate::random::random_bytes;

verus! {

/// The key that a password and the salt stored in a magic-framed file
/// derive.
pub open spec fn gcm_key_of(d: Seq<u8>, password: Seq<u8>, params: KdfParams) -> Seq<u8> {
    argon2id_of(password, gcm_salt(d), params.mem_kib, params.iterations, params.parallelism)
}

/// What decrypting a magic-framed file with a password must yield: a format
/// error unless the magic and length check out, a configuration or
/// precondition error for bad parameters or password, the plaintext exactly
/// when the cipher authenticates under the derived key, and an
/// authentication failure otherwise.
pub open spec fn gcm_decrypt_spec(d: Seq<u8>, password: Seq<u8>, params: KdfParams) -> Result<
    Seq<u8>,
    CryptoError,
> {
    if !gcm_framed(d) {
        Err(CryptoError::Format)
    } else if !params.valid() {
        Err(CryptoError::Configuration)
    } else if !password_ok(password) {
        Err(CryptoError::Precondition)
    } else {
        match gcm_open(gcm_key_of(d, password, params), gcm_nonce(d), gcm_body(d)) {
            Some(p) => Ok(p),
            None => Err(CryptoError::Authentication),
        }
    }
}

/// Encrypt under a password with AES-256-GCM, framing the result as
/// magic ‖ salt ‖ nonce ‖ ciphertext-with-tag, with the salt and nonce given
/// by the caller. Decrypting the result with the same password yields the
/// plaintext back.
pub fn gcm_password_encrypt_with(
    plaintext: &Vec<u8>,
    password: &Vec<u8>,
    salt: &Vec<u8>,
    nonce: &Vec<u8>,
    params: &KdfParams,
) -> (r: Result<Vec<u8>, CryptoError>)
    requires
        salt@.len() == SALT_LEN,
        nonce@.len() == GCM_NONCE_LEN,
        plaintext@.len() <= MAX_PLAINTEXT_LEN,
    ensures
        r is Ok <==> password_ok(password@) && params.valid(),
        r matches Ok(out) ==> out@ == magic_bytes() + salt@ + nonce@ + gcm_seal(
            argon2id_of(password@, salt@, params.mem_kib, params.iterations, params.parallelism),
            nonce@,
            plaintext@,
        ),
        r matches Ok(out) ==> gcm_decrypt_spec(out@, password@, *params) == Ok::<
            Seq<u8>,
            CryptoError,
        >(plaintext@),
        r matches Ok(out) ==> out@.len() == GCM_HEADER_LEN + TAG_LEN + plaintext@.len(),
        r matches Err(e) ==> e == (if !params.valid() {
            CryptoError::Configuration
        } else {
            CryptoError::Precondition
        }),
{
    let key = derive_key(password, salt, params)?;
    let body = gcm_encrypt(&key, nonce, plaintext);
    let out = frame_gcm(salt, nonce, &body);
    proof {
        lemma_gcm_frame_fields(salt@, nonce@, body@);
    }
    Ok(out)
}

/// Encrypt under a password with AES-256-GCM, drawing a fresh 16-byte salt
/// and 12-byte nonce from the random source, as every encryption must.
pub fn gcm_password_encrypt(plaintext: &Vec<u8>, password: &Vec<u8>, params: &KdfParams) -> (r:
    Result<Vec<u8>, CryptoError>)
    requires
        plaintext@.len() <= MAX_PLAINTEXT_LEN,
    ensures
        r is Ok <==> password_ok(password@) && params.valid(),
        r matches Ok(out) ==> gcm_framed(out@) && gcm_body(out@) == gcm_seal(
            gcm_key_of(out@, password@, *params),
            gcm_nonce(out@),
            plaintext@,
        ),
        r matches Ok(out) ==> gcm_decrypt_spec(out@, password@, *params) == Ok::<
            Seq<u8>,
            CryptoError,
        >(plaintext@),
        r matches Ok(out) ==> out@.len() == GCM_HEADER_LEN + TAG_LEN + plaintext@.len(),
        r matches Err(e) ==> e == (if !params.valid() {
            CryptoError::Configuration
        } else {
            CryptoError::Precondition
        }),
{
    let salt = random_bytes(SALT_LEN);
    let nonce = random_bytes(GCM_NONCE_LEN);
    let r = gcm_password_encrypt_with(plaintext, password, &salt, &nonce, params);
    proof {
        if r is Ok {
            lemma_gcm_frame_fields(
                salt@,
                nonce@,
                gcm_seal(
                    argon2id_of(
                        password@,
                        salt@,
                        params.mem_kib,
                        params.iterations,
                        params.parallelism,
                    ),
                    nonce@,
                    plaintext@,
                ),
            );
        }
    }
    r
}

/// Decrypt a magic-framed file with a password. Fails closed: the result is
/// exactly what [`gcm_decrypt_spec`] describes, so nothing unauthenticated
/// is ever released, and a wrong password is indistinguishable from
/// corrupted data.
pub fn gcm_password_decrypt(data: &Vec<u8>, password: &Vec<u8>, params: &KdfParams) -> (r: Result<
    Vec<u8>,
    CryptoError,
>)
    ensures
        r matches Ok(p) ==> gcm_decrypt_spec(data@, password@, *params) == Ok::<
            Seq<u8>,
            CryptoError,
        >(p@),
        r matches Ok(p) ==> data@.len() == GCM_HEADER_LEN + TAG_LEN + p@.len(),
        r matches Err(e) ==> gcm_decrypt_spec(data@, password@, *params) == Err::<
            Seq<u8>,
            CryptoError,
        >(e),
{
    let parsed = parse_gcm(data);
    let (salt, nonce, body) = match parsed {
        Ok(t) => t,
        Err(e) => {
            return Err(e);
        },
    };
    let key = match derive_key(password, &salt, params) {
        Ok(k) => k,
        Err(e) => {
            return Err(e);
        },
    };
    match gcm_decrypt(&key, &nonce, &body) {
        Some(p) => Ok(p),
        None => Err(CryptoError::Authentication),
    }
}

/// The key that a password and the salt stored in a salt ‖ nonce ‖ body file
/// derive.
pub open spec fn salted_key_of(d: Seq<u8>, password: Seq<u8>, params: KdfParams) -> Seq<u8> {
    argon2id_of(password, salted_salt(d), params.mem_kib, params.iterations, params.parallelism)
}

/// What decrypting a salt ‖ nonce ‖ body file with a password must yield,
/// in the same case order as [`gcm_decrypt_spec`].
pub open spec fn salted_decrypt_spec(d: Seq<u8>, password: Seq<u8>, params: KdfParams) -> Result<
    Seq<u8>,
    CryptoError,
> {
    if !salted_framed(d) {
        Err(CryptoError::Format)
    } else if !params.valid() {
        Err(CryptoError::Configuration)
    } else if !password_ok(password) {
        Err(CryptoError::Precondition)
    } else {
        match xchacha_open(salted_key_of(d, password, params), salted_nonce(d), salted_body(d)) {
            Some(p) => Ok(p),
            None => Err(CryptoError::Authentication),
        }
    }
}

/// Encrypt under a password with XChaCha20-Poly1305, framing the result as
/// salt ‖ nonce ‖ ciphertext-with-tag, with the salt and nonce given by the
/// caller. Decrypting the result with the same password yields the
/// plaintext back.
pub fn salted_password_encrypt_with(
    plaintext: &Vec<u8>,
    password: &Vec<u8>,
    salt: &Vec<u8>,
    nonce: &Vec<u8>,
    params: &KdfParams,
) -> (r: Result<Vec<u8>, CryptoError>)
    requires
        salt@.len() == SALT_LEN,
        nonce@.len() == XCHACHA_NONCE_LEN,
        plaintext@.len() <= MAX_PLAINTEXT_LEN,
    ensures
        r is Ok <==> password_ok(password@) && params.valid(),
        r matches Ok(out) ==> out@ == salt@ + nonce@ + xchacha_seal(
            argon2id_of(password@, salt@, params.mem_kib, params.iterations, params.parallelism),
            nonce@,
            plaintext@,
        ),
        r matches Ok(out) ==> salted_decrypt_spec(out@, password@, *params) == Ok::<
            Seq<u8>,
            CryptoError,
        >(plaintext@),
        r matches Ok(out) ==> out@.len() == SALTED_HEADER_LEN + TAG_LEN + plaintext@.len(),
        r matches Err(e) ==> e == (if !params.valid() {
            CryptoError::Configuration
        } else {
            CryptoError::Precondition
        }),
{
    let key = derive_key(password, salt, params)?;
    let body = xchacha_encrypt(&key, nonce, plaintext);
    let out = frame_salted(salt, nonce, &body);
    proof {
        lemma_salted_frame_fields(salt@, nonce@, body@);
    }
    Ok(out)
}

/// Encrypt under a password with XChaCha20-Poly1305, drawing a fresh
/// 16-byte salt and 24-byte nonce from the random source, as every
/// encryption must.
pub fn salted_password_encrypt(plaintext: &Vec<u8>, password: &Vec<u8>, params: &KdfParams) -> (r:
    Result<Vec<u8>, CryptoError>)
    requires
        plaintext@.len() <= MAX_PLAINTEXT_LEN,
    ensures
        r is Ok <==> password_ok(password@) && params.valid(),
        r matches Ok(out) ==> salted_framed(out@) && salted_body(out@) == xchacha_seal(
            salted_key_of(out@, password@, *params),
            salted_nonce(out@),
            plaintext@,
        ),
        r matches Ok(out) ==> salted_decrypt_spec(out@, password@, *params) == Ok::<
            Seq<u8>,
            CryptoError,
        >(plaintext@),
        r matches Ok(out) ==> out@.len() == SALTED_HEADER_LEN + TAG_LEN + plaintext@.len(),
        r matches Err(e) ==> e == (if !params.valid() {
            CryptoError::Configuration
        } else {
            CryptoError::Precondition
        }),
{
    let salt = random_bytes(SALT_LEN);
    let nonce = random_bytes(XCHACHA_NONCE_LEN);
    let r = salted_password_encrypt_with(plaintext, password, &salt, &nonce, params);
    proof {
        if r is Ok {
            lemma_salted_frame_fields(
                salt@,
                nonce@,
                xchacha_seal(
                    argon2id_of(
                        password@,
                        salt@,
                        params.mem_kib,
                        params.iterations,
                        params.parallelism,
                    ),
                    nonce@,
                    plaintext@,
                ),
            );
        }
    }
    r
}

/// Decrypt a salt ‖ nonce ‖ body file with a password. Fails closed: the
/// result is exactly what [`salted_decrypt_spec`] describes.
pub fn salted_password_decrypt(data: &Vec<u8>, password: &Vec<u8>, params: &KdfParams) -> (r:
    Result<Vec<u8>, CryptoError>)
    ensures
        r matches Ok(p) ==> salted_decrypt_spec(data@, password@, *params) == Ok::<
            Seq<u8>,
            CryptoError,
        >(p@),
        r matches Ok(p) ==> data@.len() == SALTED_HEADER_LEN + TAG_LEN + p@.len(),
        r matches Err(e) ==> salted_decrypt_spec(data@, password@, *params) == Err::<
            Seq<u8>,
            CryptoError,
        >(e),
{
    let parsed = parse_salted(data);
    let (salt, nonce, body) = match parsed {
        Ok(t) => t,
        Err(e) => {
            return Err(e);
        },
    };
    let key = match derive_key(password, &salt, params) {
        Ok(k) => k,
        Err(e) => {
            return Err(e);
        },
    };
    match xchacha_decrypt(&key, &nonce, &body) {
        Some(p) => Ok(p),
        None => Err(CryptoError::Authentication),
    }
}

/// What decrypting a nonce ‖ body file with a raw 32-byte key must yield: a
/// format error for a file shorter than the nonce, the plaintext exactly
/// when the cipher authenticates, and an authentication failure otherwise.
pub open spec fn keyed_decrypt_spec(d: Seq<u8>, key: Seq<u8>) -> Result<Seq<u8>, CryptoError> {
    if !keyed_framed(d) {
        Err(CryptoError::Format)
    } else {
        match xchacha_open(key, keyed_nonce(d), keyed_body(d)) {
            Some(p) => Ok(p),
            None => Err(CryptoError::Authentication),
        }
    }
}

/// Encrypt under a raw 32-byte key with XChaCha20-Poly1305, framing the
/// result as nonce ‖ ciphertext-with-tag, with the nonce given by the
/// caller. Decrypting the result with the same key yields the plaintext
/// back.
pub fn keyed_encrypt_with(plaintext: &Vec<u8>, key: &Vec<u8>, nonce: &Vec<u8>) -> (r: Vec<u8>)
    requires
        key@.len() == AEAD_KEY_LEN,
        nonce@.len() == XCHACHA_NONCE_LEN,
        plaintext@.len() <= MAX_PLAINTEXT_LEN,
    ensures
        r@ == nonce@ + xchacha_seal(key@, nonce@, plaintext@),
        keyed_decrypt_spec(r@, key@) == Ok::<Seq<u8>, CryptoError>(plaintext@),
        r@.len() == XCHACHA_NONCE_LEN + TAG_LEN + plaintext@.len(),
{
    let body = xchacha_encrypt(key, nonce, plaintext);
    let out = frame_keyed(nonce, &body);
    proof {
        lemma_keyed_frame_fields(nonce@, body@);
    }
    out
}

/// Encrypt under a raw 32-byte key with XChaCha20-Poly1305, drawing a fresh
/// 24-byte nonce from the random source, as every encryption must.
pub fn keyed_encrypt(plaintext: &Vec<u8>, key: &Vec<u8>) -> (r: Vec<u8>)
    requires
        key@.len() == AEAD_KEY_LEN,
        plaintext@.len() <= MAX_PLAINTEXT_LEN,
    ensures
        keyed_framed(r@) && keyed_body(r@) == xchacha_seal(key@, keyed_nonce(r@), plaintext@),
        keyed_decrypt_spec(r@, key@) == Ok::<Seq<u8>, CryptoError>(plaintext@),
        r@.len() == XCHACHA_NONCE_LEN + TAG_LEN + plaintext@.len(),
{
    let nonce = random_bytes(XCHACHA_NONCE_LEN);
    let r = keyed_encrypt_with(plaintext, key, &nonce);
    proof {
        lemma_keyed_frame_fields(nonce@, xchacha_seal(key@, nonce@, plaintext@));
    }
    r
}

/// Decrypt a nonce ‖ body file with a raw 32-byte key. Fails closed: the
/// result is exactly what [`keyed_decrypt_spec`] describes.
pub fn keyed_decrypt(data: &Vec<u8>, key: &Vec<u8>) -> (r: Result<Vec<u8>, CryptoError>)
    requires
        key@.len() == AEAD_KEY_LEN,
    ensures
        r matches Ok(p) ==> keyed_decrypt_spec(data@, key@) == Ok::<Seq<u8>, CryptoError>(p@),
        r matches Ok(p) ==> data@.len() == XCHACHA_NONCE_LEN + TAG_LEN + p@.len(),
        r matches Err(e) ==> keyed_decrypt_spec(data@, key@) == Err::<Seq<u8>, CryptoError>(e),
{
    let parsed = parse_keyed(data);
    let (nonce, body) = match parsed {
        Ok(t) => t,
        Err(e) => {
            return Err(e);
        },
    };
    match xchacha_decrypt(key, &nonce, &body) {
        Some(p) => Ok(p),
        None => Err(CryptoError::Authentication),
    }
}

/// Law (the part the library can state of tamper and wrong-password
/// rejection): whenever the cipher rejects a magic-framed file's body under
/// the key its stored salt and the password derive — as it does for a
/// tampered body or tag, a disturbed salt or nonce, or a wrong password —
/// decryption yields the one generic authentication failure and releases
/// nothing. That the cipher does reject such inputs is the cipher's own
/// property, outside what any contract here can state.
pub proof fn lemma_gcm_rejection_fails_closed(d: Seq<u8>, password: Seq<u8>, params: KdfParams)
    requires
        gcm_framed(d),
        params.valid(),
        password_ok(password),
        gcm_open(gcm_key_of(d, password, params), gcm_nonce(d), gcm_body(d)) is None,
    ensures
        gcm_decrypt_spec(d, password, params) == Err::<Seq<u8>, CryptoError>(
            CryptoError::Authentication,
        ),
{
}

/// Law: the salt ‖ nonce ‖ body counterpart of
/// [`lemma_gcm_rejection_fails_closed`].
pub proof fn lemma_salted_rejection_fails_closed(
    d: Seq<u8>,
    password: Seq<u8>,
    params: KdfParams,
)
    requires
        salted_framed(d),
        params.valid(),
        password_ok(password),
        xchacha_open(salted_key_of(d, password, params), salted_nonce(d), salted_body(d))
            is None,
    ensures
        salted_decrypt_spec(d, password, params) == Err::<Seq<u8>, CryptoError>(
            CryptoError::Authentication,
        ),
{
}

/// Law: the raw-key counterpart of [`lemma_gcm_rejection_fails_closed`] —
/// whenever the cipher rejects the body under a key, in particular under any
/// key other than the one the file was sealed with, decryption fails closed
/// with the same generic authentication failure.
pub proof fn lemma_keyed_rejection_fails_closed(d: Seq<u8>, key: Seq<u8>)
    requires
        keyed_framed(d),
        xchacha_open(key, keyed_nonce(d), keyed_body(d)) is None,
    ensures
        keyed_decrypt_spec(d, key) == Err::<Seq<u8>, CryptoError>(CryptoError::Authentication),
{
}

} // verus!
