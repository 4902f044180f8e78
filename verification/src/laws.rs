//! The library's global laws, stated over the spec-level state model.

use vstd::prelude::*;

use crate::hasher::init_state;
use crate::hasher::spec_finish;
use crate::hasher::spec_flush;
use crate::hasher::spec_write;
use crate::hasher::spec_write_num;
use crate::hasher::MuseHasher;

verus! {

/// Determinism: for fixed seeds, the digest of a byte run is a function of
/// the seeds and the bytes alone.  Two hashers built from equal seed pairs
/// and fed equal byte runs finish to equal digests, in any run or process.
pub proof fn lemma_digest_deterministic(
    seed_a1: u64,
    seed_b1: u64,
    seed_a2: u64,
    seed_b2: u64,
    s1: Seq<u8>,
    s2: Seq<u8>,
)
    requires
        seed_a1 == seed_a2,
        seed_b1 == seed_b2,
        s1 == s2,
    ensures
        spec_finish(spec_write(init_state(seed_a1, seed_b1), s1)) == spec_finish(
            spec_write(init_state(seed_a2, seed_b2), s2),
        ),
{
}

/// Idempotent finish: the digest is a pure function of the hasher state, and
/// `finish` borrows the state immutably, so two finishes with no intervening
/// writes return the same value both times.
pub proof fn lemma_finish_idempotent(h1: MuseHasher, h2: MuseHasher)
    requires
        h1 == h2,
    ensures
        spec_finish(h1) == spec_finish(h2),
{
}

/// A numeric write that still fits leaves the accumulator alone: the value
/// is XORed into the sponge at the current bit offset and the bit length
/// grows by the value's width.  No flush happens.
pub proof fn lemma_numeric_write_without_flush(h: MuseHasher, x: u128, bits: int)
    requires
        1 <= bits <= 128,
        h.sponge_len + bits <= 128,
    ensures
        spec_write_num(h, x, bits) == (MuseHasher {
            seed_a: h.seed_a,
            seed_b: h.seed_b,
            acc_lo: h.acc_lo,
            acc_hi: h.acc_hi,
            sponge: h.sponge ^ (x << h.sponge_len),
            sponge_len: (h.sponge_len + bits) as usize,
        }),
{
}

/// A numeric write that would overflow the 128 sponge bits flushes first:
/// the accumulator absorbs the old sponge, the sponge restarts from its own
/// bit-complement with the new value written at bit offset zero, and its bit
/// length becomes exactly the new value's width.
pub proof fn lemma_numeric_write_with_flush(h: MuseHasher, x: u128, bits: int)
    requires
        1 <= bits <= 128,
        h.sponge_len + bits > 128,
    ensures
        spec_write_num(h, x, bits) == (MuseHasher {
            seed_a: h.seed_a,
            seed_b: h.seed_b,
            acc_lo: spec_flush(h).acc_lo,
            acc_hi: spec_flush(h).acc_hi,
            sponge: (h.sponge ^ 0xffffffffffffffffffffffffffffffff) ^ (x << 0usize),
            sponge_len: bits as usize,
        }),
{
}

} // verus!
