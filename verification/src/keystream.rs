//! The deterministic keystream generator: a ChaCha20 stream seeded from 32
//! derived bytes, emitting a reproducible byte sequence in bounded chunks so
//! that even multi-gigabyte keystreams need only a fixed working buffer.

use vstd::prelude::*;

use crate::bytes::push_all;

verus! {

/// Size of the working chunk, in bytes: the generator never hands out more
/// than this in one call, so memory use is bounded by it.
pub const CHUNK_SIZE: usize = 65536;

/// Largest keystream a single request may ask for, in bytes (5 GiB).
pub const MAX_STREAM_SIZE: u64 = 5368709120;

/// Length of a generator seed, in bytes.
pub const SEED_LEN: usize = 32;

#[verifier::external_type_specification]
#[verifier::external_body]
pub struct ExChaCha20Rng(rand_chacha::ChaCha20Rng);

/// Byte `index` of the keystream that a ChaCha20 generator seeded with `seed`
/// emits. Deterministic: the same seed always yields the same stream.
pub uninterp spec fn chacha_byte(seed: Seq<u8>, index: nat) -> u8;

/// The first `n` bytes of the keystream for `seed`.
pub open spec fn keystream(seed: Seq<u8>, n: nat) -> Seq<u8> {
    Seq::new(n, |i: int| chacha_byte(seed, i as nat))
}

/// Relies on rand_chacha's `ChaCha20Rng::from_seed`: builds the generator for
/// the given 32-byte seed.
#[verifier::external_body]
fn chacha_from_seed(seed: &Vec<u8>) -> (r: rand_chacha::ChaCha20Rng)
    requires
        seed@.len() == SEED_LEN,
{
    let mut s = [0u8; 32];
    s.copy_from_slice(seed.as_slice());
    <rand_chacha::ChaCha20Rng as rand_core::SeedableRng>::from_seed(s)
}

/// A keystream generator: the stream determined by a 32-byte seed, handed out
/// from the front in chunks, capped at a total requested size so the stream
/// never overruns it.
pub struct KeystreamGen {
    rng: rand_chacha::ChaCha20Rng,
    seed: Ghost<Seq<u8>>,
    pos: Ghost<nat>,
    remaining: u64,
}

impl KeystreamGen {
    /// The seed this generator was built from.
    pub closed spec fn seed(&self) -> Seq<u8> {
        self.seed@
    }

    /// How many stream bytes have been handed out so far.
    pub closed spec fn pos(&self) -> nat {
        self.pos@
    }

    /// How many bytes of the requested total are still to come.
    pub closed spec fn remaining(&self) -> u64 {
        self.remaining
    }

    /// Build the generator for `seed`, bounded to emit `total` bytes in all.
    pub fn new(seed: &Vec<u8>, total: u64) -> (g: KeystreamGen)
        requires
            seed@.len() == SEED_LEN,
        ensures
            g.wf(),
            g.seed() == seed@,
            g.pos() == 0,
            g.remaining() == total,
    {
        KeystreamGen {
            rng: chacha_from_seed(seed),
            seed: Ghost(seed@),
            pos: Ghost(0nat),
            remaining: total,
        }
    }

    /// Relies on rand_chacha's `ChaCha20Rng::fill_bytes`: emits the next `n`
    /// bytes of the keystream determined by the seed, advancing the stream.
    /// The generator consumes its stream in 32-bit words — an unaligned fill
    /// skips to the next word boundary — so this is called only at
    /// word-aligned stream positions, where the bytes delivered are exactly
    /// the next `n` bytes of the stream.
    #[verifier::external_body]
    fn fill_next(&mut self, n: usize) -> (r: Vec<u8>)
        requires
            old(self).pos() % 4 == 0,
        ensures
            r@.len() == n,
            final(self).seed() == old(self).seed(),
            final(self).pos() == old(self).pos() + n,
            final(self).remaining() == old(self).remaining(),
            forall|i: int|
                0 <= i < n ==> r@[i] == chacha_byte(
                    old(self).seed(),
                    (old(self).pos() + i) as nat,
                ),
    {
        let mut buf = vec![0u8; n];
        <rand_chacha::ChaCha20Rng as rand_core::RngCore>::fill_bytes(&mut self.rng, &mut buf);
        buf
    }

    /// Whether the generator can keep going: its stream stands at a whole
    /// word unless everything owed has already been handed out. Every
    /// freshly built generator satisfies this, and every chunk it hands out
    /// preserves it.
    pub open spec fn wf(&self) -> bool {
        self.pos() % 4 == 0 || self.remaining() == 0
    }

    /// Hand out the next chunk: [`CHUNK_SIZE`] bytes, or whatever remains of
    /// the requested total if that is less — the final chunk may be shorter,
    /// and the stream never overruns the total. Once the total has been
    /// handed out, further calls yield nothing.
    pub fn next_chunk(&mut self) -> (r: Vec<u8>)
        requires
            old(self).wf(),
        ensures
            final(self).wf(),
            final(self).seed() == old(self).seed(),
            r@.len() == spec_chunk_len(old(self).remaining()),
            final(self).pos() == old(self).pos() + r@.len(),
            final(self).remaining() == old(self).remaining() - r@.len(),
            forall|i: int|
                0 <= i < r@.len() ==> r@[i] == chacha_byte(
                    old(self).seed(),
                    (old(self).pos() + i) as nat,
                ),
    {
        let take: usize = if (CHUNK_SIZE as u64) > self.remaining {
            self.remaining as usize
        } else {
            CHUNK_SIZE
        };
        if take == 0 {
            return Vec::new();
        }
        let out = self.fill_next(take);
        self.remaining = self.remaining - (take as u64);
        out
    }
}

/// How long the next chunk is when `remaining` bytes are still owed:
/// [`CHUNK_SIZE`], or `remaining` if that is less.
pub open spec fn spec_chunk_len(remaining: u64) -> int {
    if CHUNK_SIZE > remaining {
        remaining as int
    } else {
        CHUNK_SIZE as int
    }
}

/// Law: the stream for a seed is one fixed sequence — asking for more bytes
/// never changes the earlier ones, so two generators with the same seed
/// yield identical output for any requested lengths, however the requests
/// cross chunk boundaries.
pub proof fn lemma_keystream_prefix(seed: Seq<u8>, shorter: nat, longer: nat)
    requires
        shorter <= longer,
    ensures
        keystream(seed, longer).subrange(0, shorter as int) == keystream(seed, shorter),
{
    assert(keystream(seed, longer).subrange(0, shorter as int) =~= keystream(seed, shorter));
}

/// Materialize the first `total` bytes of the keystream for `seed` in memory,
/// produced chunk by chunk. The result does not depend on how the chunks fall.
pub fn keystream_bytes(seed: &Vec<u8>, total: usize) -> (r: Vec<u8>)
    requires
        seed@.len() == SEED_LEN,
    ensures
        r@ == keystream(seed@, total as nat),
{
    let mut generator = KeystreamGen::new(seed, total as u64);
    let mut out: Vec<u8> = Vec::new();
    let mut left: usize = total;
    while left > 0
        invariant
            generator.wf(),
            generator.seed() == seed@,
            generator.pos() == out@.len(),
            generator.remaining() == left,
            out@.len() + left == total,
            out@ == keystream(seed@, out@.len() as nat),
        decreases left,
    {
        let chunk = generator.next_chunk();
        push_all(&mut out, &chunk);
        left = left - chunk.len();
        proof {
            assert(out@ =~= keystream(seed@, out@.len() as nat));
        }
    }
    out
}

} // verus!
