//! The on-disk byte layouts. Three framed variants exist, one per tool:
//! magic ‖ salt ‖ nonce ‖ body for the password tool with the fixed-size
//! nonce; salt ‖ nonce ‖ body for the password tool with the extended nonce;
//! nonce ‖ body for the raw-key tool. Fields are fixed-width and
//! concatenated with no length prefixes: everything after the fixed offsets
//! is the body (ciphertext with its tag). Parsing validates the magic header
//! byte for byte before trusting any later field, and a file shorter than
//! the fixed leading fields is a format error, never an out-of-bounds read.

use vstd::prelude::*;

use crate::aead::{GCM_NONCE_LEN, XCHACHA_NONCE_LEN};
use crate::bytes::{copy_range, push_all};
use crate::errors::CryptoError;

verus! {

/// Length of the magic header, in bytes.
pub const MAGIC_LEN: usize = 9;
/// Length of a stored salt, in bytes.
pub const SALT_LEN: usize = 16;
/// Least length of a file in the magic ‖ salt ‖ nonce ‖ body layout.
pub const GCM_HEADER_LEN: usize = 37;
/// Least length of a file in the salt ‖ nonce ‖ body layout.
pub const SALTED_HEADER_LEN: usize = 40;

/// The nine magic bytes, ASCII "SECUREENC".
pub open spec fn magic_bytes() -> Seq<u8> {
    seq![83u8, 69u8, 67u8, 85u8, 82u8, 69u8, 69u8, 78u8, 67u8]
}

/// The magic header as a vector.
pub fn magic() -> (r: Vec<u8>)
    ensures
        r@ == magic_bytes(),
{
    let mut r: Vec<u8> = Vec::new();
    r.push(83);
    r.push(69);
    r.push(67);
    r.push(85);
    r.push(82);
    r.push(69);
    r.push(69);
    r.push(78);
    r.push(67);
    proof {
        assert(r@ =~= magic_bytes());
    }
    r
}

/// Whether `d` carries the magic ‖ salt ‖ nonce ‖ body layout: long enough
/// for the fixed fields, and the magic matches byte for byte.
pub open spec fn gcm_framed(d: Seq<u8>) -> bool {
    d.len() >= GCM_HEADER_LEN && d.subrange(0, MAGIC_LEN as int) == magic_bytes()
}

/// The stored salt of a file in the magic ‖ salt ‖ nonce ‖ body layout.
pub open spec fn gcm_salt(d: Seq<u8>) -> Seq<u8> {
    d.subrange(9, 25)
}

/// The stored nonce of a file in the magic ‖ salt ‖ nonce ‖ body layout.
pub open spec fn gcm_nonce(d: Seq<u8>) -> Seq<u8> {
    d.subrange(25, 37)
}

/// The body (ciphertext with tag) of a file in the magic ‖ salt ‖ nonce ‖
/// body layout.
pub open spec fn gcm_body(d: Seq<u8>) -> Seq<u8> {
    d.subrange(37, d.len() as int)
}

/// Whether `d` is long enough for the salt ‖ nonce ‖ body layout.
pub open spec fn salted_framed(d: Seq<u8>) -> bool {
    d.len() >= SALTED_HEADER_LEN
}

/// The stored salt of a file in the salt ‖ nonce ‖ body layout.
pub open spec fn salted_salt(d: Seq<u8>) -> Seq<u8> {
    d.subrange(0, 16)
}

/// The stored nonce of a file in the salt ‖ nonce ‖ body layout.
pub open spec fn salted_nonce(d: Seq<u8>) -> Seq<u8> {
    d.subrange(16, 40)
}

/// The body of a file in the salt ‖ nonce ‖ body layout.
pub open spec fn salted_body(d: Seq<u8>) -> Seq<u8> {
    d.subrange(40, d.len() as int)
}

/// Whether `d` is long enough for the nonce ‖ body layout.
pub open spec fn keyed_framed(d: Seq<u8>) -> bool {
    d.len() >= XCHACHA_NONCE_LEN
}

/// The stored nonce of a file in the nonce ‖ body layout.
pub open spec fn keyed_nonce(d: Seq<u8>) -> Seq<u8> {
    d.subrange(0, 24)
}

/// The body of a file in the nonce ‖ body layout.
pub open spec fn keyed_body(d: Seq<u8>) -> Seq<u8> {
    d.subrange(24, d.len() as int)
}

/// Serialize the magic ‖ salt ‖ nonce ‖ body layout.
pub fn frame_gcm(salt: &Vec<u8>, nonce: &Vec<u8>, body: &Vec<u8>) -> (r: Vec<u8>)
    ensures
        r@ == magic_bytes() + salt@ + nonce@ + body@,
{
    let mut out = magic();
    push_all(&mut out, salt);
    push_all(&mut out, nonce);
    push_all(&mut out, body);
    out
}

/// Serialize the salt ‖ nonce ‖ body layout.
pub fn frame_salted(salt: &Vec<u8>, nonce: &Vec<u8>, body: &Vec<u8>) -> (r: Vec<u8>)
    ensures
        r@ == salt@ + nonce@ + body@,
{
    let mut out: Vec<u8> = Vec::new();
    push_all(&mut out, salt);
    push_all(&mut out, nonce);
    push_all(&mut out, body);
    proof {
        assert(out@ =~= salt@ + nonce@ + body@);
    }
    out
}

/// Serialize the nonce ‖ body layout.
pub fn frame_keyed(nonce: &Vec<u8>, body: &Vec<u8>) -> (r: Vec<u8>)
    ensures
        r@ == nonce@ + body@,
{
    let mut out: Vec<u8> = Vec::new();
    push_all(&mut out, nonce);
    push_all(&mut out, body);
    proof {
        assert(out@ =~= nonce@ + body@);
    }
    out
}

/// Parse the magic ‖ salt ‖ nonce ‖ body layout into its fields. A file
/// shorter than the fixed fields, or one whose magic does not match byte for
/// byte, is a format error.
pub fn parse_gcm(data: &Vec<u8>) -> (r: Result<(Vec<u8>, Vec<u8>, Vec<u8>), CryptoError>)
    ensures
        r is Ok <==> gcm_framed(data@),
        r matches Ok(t) ==> t.0@ == gcm_salt(data@) && t.1@ == gcm_nonce(data@) && t.2@
            == gcm_body(data@),
        r matches Err(e) ==> e == CryptoError::Format,
{
    if data.len() < GCM_HEADER_LEN {
        return Err(CryptoError::Format);
    }
    let expected = magic();
    let mut i: usize = 0;
    while i < MAGIC_LEN
        invariant
            i <= MAGIC_LEN,
            data@.len() >= GCM_HEADER_LEN,
            expected@ == magic_bytes(),
            forall|j: int| 0 <= j < i ==> data@[j] == magic_bytes()[j],
        decreases MAGIC_LEN - i,
    {
        if data[i] != expected[i] {
            proof {
                assert(data@.subrange(0, MAGIC_LEN as int)[i as int] != magic_bytes()[i as int]);
            }
            return Err(CryptoError::Format);
        }
        i = i + 1;
    }
    proof {
        assert(data@.subrange(0, MAGIC_LEN as int) =~= magic_bytes());
    }
    let salt = copy_range(data, 9, 25);
    let nonce = copy_range(data, 25, 37);
    let body = copy_range(data, 37, data.len());
    Ok((salt, nonce, body))
}

/// Parse the salt ‖ nonce ‖ body layout into its fields. A file shorter than
/// the fixed fields is a format error.
pub fn parse_salted(data: &Vec<u8>) -> (r: Result<(Vec<u8>, Vec<u8>, Vec<u8>), CryptoError>)
    ensures
        r is Ok <==> salted_framed(data@),
        r matches Ok(t) ==> t.0@ == salted_salt(data@) && t.1@ == salted_nonce(data@) && t.2@
            == salted_body(data@),
        r matches Err(e) ==> e == CryptoError::Format,
{
    if data.len() < SALTED_HEADER_LEN {
        return Err(CryptoError::Format);
    }
    let salt = copy_range(data, 0, 16);
    let nonce = copy_range(data, 16, 40);
    let body = copy_range(data, 40, data.len());
    Ok((salt, nonce, body))
}

/// Parse the nonce ‖ body layout into its fields. A file shorter than the
/// nonce is a format error.
pub fn parse_keyed(data: &Vec<u8>) -> (r: Result<(Vec<u8>, Vec<u8>), CryptoError>)
    ensures
        r is Ok <==> keyed_framed(data@),
        r matches Ok(t) ==> t.0@ == keyed_nonce(data@) && t.1@ == keyed_body(data@),
        r matches Err(e) ==> e == CryptoError::Format,
{
    if data.len() < XCHACHA_NONCE_LEN {
        return Err(CryptoError::Format);
    }
    let nonce = copy_range(data, 0, 24);
    let body = copy_range(data, 24, data.len());
    Ok((nonce, body))
}

/// Law: serializing the magic ‖ salt ‖ nonce ‖ body layout and reading the
/// fields back gives the fields that went in, whatever the body holds.
pub proof fn lemma_gcm_frame_fields(salt: Seq<u8>, nonce: Seq<u8>, body: Seq<u8>)
    requires
        salt.len() == SALT_LEN,
        nonce.len() == GCM_NONCE_LEN,
    ensures
        gcm_framed(magic_bytes() + salt + nonce + body),
        gcm_salt(magic_bytes() + salt + nonce + body) == salt,
        gcm_nonce(magic_bytes() + salt + nonce + body) == nonce,
        gcm_body(magic_bytes() + salt + nonce + body) == body,
{
    let d = magic_bytes() + salt + nonce + body;
    assert(d.subrange(0, MAGIC_LEN as int) =~= magic_bytes());
    assert(d.subrange(9, 25) =~= salt);
    assert(d.subrange(25, 37) =~= nonce);
    assert(d.subrange(37, d.len() as int) =~= body);
}

/// Law: serializing the salt ‖ nonce ‖ body layout and reading the fields
/// back gives the fields that went in, whatever the body holds.
pub proof fn lemma_salted_frame_fields(salt: Seq<u8>, nonce: Seq<u8>, body: Seq<u8>)
    requires
        salt.len() == SALT_LEN,
        nonce.len() == XCHACHA_NONCE_LEN,
    ensures
        salted_framed(salt + nonce + body),
        salted_salt(salt + nonce + body) == salt,
        salted_nonce(salt + nonce + body) == nonce,
        salted_body(salt + nonce + body) == body,
{
    let d = salt + nonce + body;
    assert(d.subrange(0, 16) =~= salt);
    assert(d.subrange(16, 40) =~= nonce);
    assert(d.subrange(40, d.len() as int) =~= body);
}

/// Law: serializing the nonce ‖ body layout and reading the fields back
/// gives the fields that went in, whatever the body holds.
pub proof fn lemma_keyed_frame_fields(nonce: Seq<u8>, body: Seq<u8>)
    requires
        nonce.len() == XCHACHA_NONCE_LEN,
    ensures
        keyed_framed(nonce + body),
        keyed_nonce(nonce + body) == nonce,
        keyed_body(nonce + body) == body,
{
    let d = nonce + body;
    assert(d.subrange(0, 24) =~= nonce);
    assert(d.subrange(24, d.len() as int) =~= body);
}

} // verus!
