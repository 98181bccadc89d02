//! The raw keystream transform: byte-wise XOR of an input with key material of
//! at least equal length. It is an involution — applying it twice with the
//! same key material recovers the input — and it carries no authentication.

use vstd::prelude::*;

use crate::errors::CryptoError;

verus! {

/// Byte-wise XOR of `input` against the prefix of `key` of the same length.
pub open spec fn xor_bytes(input: Seq<u8>, key: Seq<u8>) -> Seq<u8>
    recommends
        input.len() <= key.len(),
{
    Seq::new(input.len(), |i: int| input[i] ^ key[i])
}

/// Combine `input` with `key` by XOR. Key material shorter than the input is
/// a reported error, never a silent partial transform.
pub fn combine(input: &Vec<u8>, key: &Vec<u8>) -> (r: Result<Vec<u8>, CryptoError>)
    ensures
        r is Ok <==> input@.len() <= key@.len(),
        r matches Ok(out) ==> out@ == xor_bytes(input@, key@),
        r matches Err(e) ==> e == CryptoError::Precondition,
{
    if key.len() < input.len() {
        return Err(CryptoError::Precondition);
    }
    let mut out: Vec<u8> = Vec::new();
    let mut i: usize = 0;
    while i < input.len()
        invariant
            i <= input@.len(),
            input@.len() <= key@.len(),
            out@.len() == i,
            forall|j: int| 0 <= j < i ==> out@[j] == (input@[j] ^ key@[j]),
        decreases input@.len() - i,
    {
        out.push(input[i] ^ key[i]);
        i = i + 1;
    }
    proof {
        assert(out@ =~= xor_bytes(input@, key@));
    }
    Ok(out)
}

proof fn lemma_xor_cancels(a: u8, b: u8)
    ensures
        ((a ^ b) ^ b) == a,
{
    assert(((a ^ b) ^ b) == a) by (bit_vector);
}

/// Law: the transform is an involution. Whenever the key material is at least
/// as long as the input, combining twice with the same key recovers the input.
pub proof fn lemma_xor_involution(input: Seq<u8>, key: Seq<u8>)
    requires
        input.len() <= key.len(),
    ensures
        xor_bytes(xor_bytes(input, key), key) == input,
{
    let once = xor_bytes(input, key);
    let twice = xor_bytes(once, key);
    assert forall|i: int| 0 <= i < input.len() implies twice[i] == input[i] by {
        lemma_xor_cancels(input[i], key[i]);
    }
    assert(twice =~= input);
}

} // verus!
