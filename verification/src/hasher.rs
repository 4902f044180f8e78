//! The streaming accumulator: size-class byte-run mixing, the numeric-write
//! sponge, and the finalizer.
//!
//! A hasher holds the seed pair, the running accumulator `(acc_lo, acc_hi)`,
//! and a 128-bit sponge buffer with its bit length.  Byte runs are dispatched
//! purely by length to one of three mixing algorithms (0-32, 33-256, 257 and
//! more bytes); fixed-width numeric writes are batched in the sponge and
//! flushed into the accumulator when the next write would overflow its 128
//! bits.  `finish` mixes the state into a digest without mutating anything.
//!
//! Every transition is pinned exactly by a spec function of the same shape,
//! so the contracts determine each digest bit for bit.

use vstd::prelude::*;

use crate::bytes::le64;
use crate::bytes::read_short;
use crate::bytes::read_u64;
use crate::bytes::short_pair;
use crate::mixing::hi64;
use crate::mixing::lo64;
use crate::mixing::mul_folded;
use crate::mixing::mul_hi;
use crate::mixing::mul_lo;
use crate::mixing::rotate_left_64;
use crate::mixing::rotate_right_64;
use crate::mixing::rotl;
use crate::mixing::rotr;
use crate::mixing::u128_to_u64s;
use crate::mixing::wmul;
use crate::mixing::fmul;
use crate::mixing::SALT0;
use crate::mixing::SALT1;
use crate::mixing::SALT2;
use crate::mixing::SALT3;
use crate::mixing::SALT4;
use crate::mixing::SALT5;
use crate::mixing::SALT6;
use vstd::slice::slice_subrange;

verus! {

/// The streaming accumulator.  One instance is created per hashed value:
/// construct, zero or more writes, then `finish`.
#[derive(Clone, Copy)]
pub struct MuseHasher {
    pub seed_a: u64,
    pub seed_b: u64,
    pub acc_lo: u64,
    pub acc_hi: u64,
    pub sponge: u128,
    pub sponge_len: usize,
}

/// The six ring-state words and the carried word of the long-input mixer.
pub struct RingState {
    pub s0: u64,
    pub s1: u64,
    pub s2: u64,
    pub s3: u64,
    pub s4: u64,
    pub s5: u64,
    pub prev: u64,
}

/// The state of a fresh hasher: the accumulator is loaded with
/// `(seed_a, seed_b)` in that exact order, and the sponge is empty.
pub open spec fn init_state(seed_a: u64, seed_b: u64) -> MuseHasher {
    MuseHasher {
        seed_a: seed_a,
        seed_b: seed_b,
        acc_lo: seed_a,
        acc_hi: seed_b,
        sponge: 0,
        sponge_len: 0,
    }
}

/// The digest `finish` computes: the pending sponge content (if any) mixed
/// through two wide multiplies, the accumulator through two more, all four
/// halves XORed together.  A pure function of the state.
pub open spec fn spec_finish(h: MuseHasher) -> u64 {
    let uv = if h.sponge_len != 0 {
        let u0 = lo64(h.sponge);
        let v0 = hi64(h.sponge);
        let u1 = mul_lo(u0 ^ h.acc_hi, v0 ^ h.acc_lo);
        let v1 = mul_hi(u0 ^ h.acc_hi, v0 ^ h.acc_lo);
        (mul_lo(u1 ^ SALT0, v1 ^ SALT1), mul_hi(u1 ^ SALT0, v1 ^ SALT1))
    } else {
        (0u64, 0u64)
    };
    let i1 = mul_lo(h.acc_lo ^ SALT2, h.acc_hi ^ SALT3);
    let j1 = mul_hi(h.acc_lo ^ SALT2, h.acc_hi ^ SALT3);
    let i2 = mul_lo(i1 ^ SALT4, j1 ^ SALT5);
    let j2 = mul_hi(i1 ^ SALT4, j1 ^ SALT5);
    i2 ^ j2 ^ uv.0 ^ uv.1
}

/// The sponge flush: the two sponge halves are wide-multiplied against the
/// accumulator and the seeds, the four result halves recombined into the new
/// accumulator, and the sponge reset to its bit-complement with length zero.
pub open spec fn spec_flush(h: MuseHasher) -> MuseHasher {
    let lo = lo64(h.sponge);
    let hi = hi64(h.sponge);
    let lolo = mul_lo(lo ^ h.acc_lo, hi ^ h.seed_b);
    let lohi = mul_hi(lo ^ h.acc_lo, hi ^ h.seed_b);
    let hilo = mul_lo(hi ^ h.acc_hi, lo ^ h.seed_a);
    let hihi = mul_hi(hi ^ h.acc_hi, lo ^ h.seed_a);
    MuseHasher {
        seed_a: h.seed_a,
        seed_b: h.seed_b,
        acc_lo: lolo ^ hihi,
        acc_hi: hilo ^ lohi,
        sponge: h.sponge ^ 0xffffffffffffffffffffffffffffffff,
        sponge_len: 0,
    }
}

/// A fixed-width numeric write of `bits` bits: flush first if the value
/// would not fit, then XOR it into the sponge at the current bit offset.
pub open spec fn spec_write_num(h: MuseHasher, x: u128, bits: int) -> MuseHasher
    recommends
        1 <= bits <= 128,
{
    let h1 = if h.sponge_len + bits > 128 {
        spec_flush(h)
    } else {
        h
    };
    MuseHasher {
        seed_a: h1.seed_a,
        seed_b: h1.seed_b,
        acc_lo: h1.acc_lo,
        acc_hi: h1.acc_hi,
        sponge: h1.sponge ^ (x << h1.sponge_len),
        sponge_len: (h1.sponge_len + bits) as usize,
    }
}

/// The short size class (0-32 bytes): the accumulator is rebuilt from the
/// packed end words, one constant-multiply contribution of `seed_b` and the
/// length, and - for more than 16 bytes - a second contribution from the
/// bytes past the first 16.
pub open spec fn spec_write_short(h: MuseHasher, s: Seq<u8>) -> MuseHasher
    recommends
        s.len() <= 32,
{
    let n: int = s.len() as int;
    let n64 = n as u64;
    let m: int = if n < 16 {
        n
    } else {
        16
    };
    let p = short_pair(s.subrange(0, m));
    let lo2 = mul_lo(SALT0 ^ h.seed_b, SALT1 ^ n64);
    let hi2 = mul_hi(SALT0 ^ h.seed_b, SALT1 ^ n64);
    let acc_lo0 = p.0 ^ lo2 ^ n64;
    let acc_hi0 = p.1 ^ hi2 ^ h.seed_a;
    if n > 16 {
        let q = short_pair(s.subrange(16, n));
        let lo0 = mul_lo(SALT2, SALT3 ^ q.0);
        let hi0 = mul_hi(SALT2, SALT3 ^ q.0);
        let lo1 = mul_lo(SALT4, SALT5 ^ q.1);
        let hi1 = mul_hi(SALT4, SALT5 ^ q.1);
        MuseHasher {
            seed_a: h.seed_a,
            seed_b: h.seed_b,
            acc_lo: acc_lo0 ^ lo0 ^ hi1,
            acc_hi: acc_hi0 ^ lo1 ^ hi0,
            sponge: h.sponge,
            sponge_len: h.sponge_len,
        }
    } else {
        MuseHasher {
            seed_a: h.seed_a,
            seed_b: h.seed_b,
            acc_lo: acc_lo0,
            acc_hi: acc_hi0,
            sponge: h.sponge,
            sponge_len: h.sponge_len,
        }
    }
}

/// Number of lockstep rounds of the medium size class: `ceil(len / 32)`,
/// capped so the 16-byte forward and reverse windows never leave the buffer.
pub open spec fn medim_rounds(n: int) -> int {
    let times = n / 32 + if n % 32 == 0 {
        0int
    } else {
        1int
    };
    let cap = n / 16;
    if times < cap {
        times
    } else {
        cap
    }
}

/// The first `t` lockstep rounds of the medium size class: round `k` folds
/// the forward 16-byte window at `16k` and the tail-anchored reverse window
/// ending `16k` bytes before the end into the two running words.
pub open spec fn medim_loop(i: u64, j: u64, sa: u64, sb: u64, s: Seq<u8>, t: int) -> (u64, u64)
    recommends
        0 <= t,
        16 * t <= s.len(),
    decreases t,
{
    if t <= 0 {
        (i, j)
    } else {
        let p = medim_loop(i, j, sa, sb, s, t - 1);
        let base: int = 16 * (t - 1);
        let rbase: int = s.len() - 16 * t;
        (
            mul_folded(p.0 ^ le64(s, base), sb ^ le64(s, rbase + 8)),
            mul_folded(p.1 ^ le64(s, base + 8), sa ^ le64(s, rbase)),
        )
    }
}

/// The medium size class (33-256 bytes, and the long class's tail): the
/// lockstep rounds produce two words; the old accumulator halves are rotated
/// by `len mod 64` bits - one left, one right - and the words XORed in.
pub open spec fn spec_write_medim(h: MuseHasher, s: Seq<u8>) -> MuseHasher {
    let p = medim_loop(h.acc_lo, h.acc_hi, h.seed_a, h.seed_b, s, medim_rounds(s.len() as int));
    let rot = (s.len() % 64) as u64;
    MuseHasher {
        seed_a: h.seed_a,
        seed_b: h.seed_b,
        acc_lo: rotl(h.acc_lo, rot) ^ p.0,
        acc_hi: rotr(h.acc_hi, rot) ^ p.1,
        sponge: h.sponge,
        sponge_len: h.sponge_len,
    }
}

/// The ring state before any block: the six words are seeded from the
/// constant pool and the two seed halves, the carried word from the seventh
/// constant.
pub open spec fn ring_init(sa: u64, sb: u64) -> RingState {
    RingState {
        s0: SALT0.wrapping_add(sa),
        s1: SALT1.wrapping_sub(sb),
        s2: SALT2 ^ sa,
        s3: SALT3.wrapping_add(sb),
        s4: SALT4.wrapping_sub(sa),
        s5: SALT5 ^ sb,
        prev: SALT6,
    }
}

/// One 96-byte block of the long size class: six chained steps arranged in a
/// ring.  Step `k` XORs two fresh input words into slots `k` and `k+1`,
/// wide-multiplies them, writes `prev ^ high` into slot `k`, and hands the
/// low half to the next step; the last low half is carried to the next block.
pub open spec fn ring_block(r: RingState, s: Seq<u8>, base: int) -> RingState
    recommends
        0 <= base,
        base + 96 <= s.len(),
{
    let a0 = r.s0 ^ le64(s, base);
    let a1 = r.s1 ^ le64(s, base + 8);
    let n0 = r.prev ^ mul_hi(a0, a1);
    let b1 = a1 ^ le64(s, base + 16);
    let a2 = r.s2 ^ le64(s, base + 24);
    let n1 = mul_lo(a0, a1) ^ mul_hi(b1, a2);
    let b2 = a2 ^ le64(s, base + 32);
    let a3 = r.s3 ^ le64(s, base + 40);
    let n2 = mul_lo(b1, a2) ^ mul_hi(b2, a3);
    let b3 = a3 ^ le64(s, base + 48);
    let a4 = r.s4 ^ le64(s, base + 56);
    let n3 = mul_lo(b2, a3) ^ mul_hi(b3, a4);
    let b4 = a4 ^ le64(s, base + 64);
    let a5 = r.s5 ^ le64(s, base + 72);
    let n4 = mul_lo(b3, a4) ^ mul_hi(b4, a5);
    let b5 = a5 ^ le64(s, base + 80);
    let c0 = n0 ^ le64(s, base + 88);
    let n5 = mul_lo(b4, a5) ^ mul_hi(b5, c0);
    RingState { s0: c0, s1: n1, s2: n2, s3: n3, s4: n4, s5: n5, prev: mul_lo(b5, c0) }
}

/// The ring state after the first `k` 96-byte blocks of `s`.
pub open spec fn ring_blocks(r: RingState, s: Seq<u8>, k: int) -> RingState
    recommends
        0 <= k,
        96 * k <= s.len(),
    decreases k,
{
    if k <= 0 {
        r
    } else {
        ring_block(ring_blocks(r, s, k - 1), s, 96 * (k - 1))
    }
}

/// The long size class (257 bytes and more): all full 96-byte blocks run
/// through the ring, the carried word is folded into slot 0, three state
/// words are added into each accumulator half, and the remaining tail is
/// absorbed by the medium algorithm.
pub open spec fn spec_write_loong(h: MuseHasher, s: Seq<u8>) -> MuseHasher {
    let nb: int = s.len() as int / 96;
    let r = ring_blocks(ring_init(h.seed_a, h.seed_b), s, nb);
    let s0f = r.s0 ^ r.prev;
    let mid = MuseHasher {
        seed_a: h.seed_a,
        seed_b: h.seed_b,
        acc_lo: h.acc_lo ^ s0f.wrapping_add(r.s2).wrapping_add(r.s4),
        acc_hi: h.acc_hi ^ r.s1.wrapping_add(r.s3).wrapping_add(r.s5),
        sponge: h.sponge,
        sponge_len: h.sponge_len,
    };
    spec_write_medim(mid, s.subrange(96 * nb, s.len() as int))
}

/// A byte-run write, dispatched purely by length.
pub open spec fn spec_write(h: MuseHasher, s: Seq<u8>) -> MuseHasher {
    if s.len() <= 32 {
        spec_write_short(h, s)
    } else if s.len() <= 256 {
        spec_write_medim(h, s)
    } else {
        spec_write_loong(h, s)
    }
}

impl MuseHasher {
    /// A fresh hasher for one member of the hash family, identified by the
    /// seed pair.
    pub fn new(seed_a: u64, seed_b: u64) -> (h: MuseHasher)
        ensures
            h == init_state(seed_a, seed_b),
    {
        MuseHasher {
            seed_a: seed_a,
            seed_b: seed_b,
            acc_lo: seed_a,
            acc_hi: seed_b,
            sponge: 0,
            sponge_len: 0,
        }
    }

    /// The 64-bit digest of the current state.  Read-only and repeatable:
    /// without intervening writes every call returns the same value.
    pub fn finish(&self) -> (digest: u64)
        ensures
            digest == spec_finish(*self),
    {
        let mut u: u64 = 0;
        let mut v: u64 = 0;
        if self.sponge_len != 0 {
            let (u0, v0) = u128_to_u64s(self.sponge);
            let (u1, v1) = wmul(u0 ^ self.acc_hi, v0 ^ self.acc_lo);
            let (u2, v2) = wmul(u1 ^ SALT0, v1 ^ SALT1);
            u = u2;
            v = v2;
        }
        let (i1, j1) = wmul(self.acc_lo ^ SALT2, self.acc_hi ^ SALT3);
        let (i2, j2) = wmul(i1 ^ SALT4, j1 ^ SALT5);
        i2 ^ j2 ^ u ^ v
    }

    /// A byte-run write of any length, including zero.
    pub fn write(&mut self, bytes: &[u8])
        ensures
            *final(self) == spec_write(*old(self), bytes@),
    {
        let n: usize = bytes.len();
        if n <= 32 {
            self.write_short(bytes);
        } else if n <= 256 {
            self.write_medim(bytes);
        } else {
            self.write_loong(bytes);
        }
    }

    /// The short size class: at most 32 bytes.
    pub fn write_short(&mut self, bytes: &[u8])
        requires
            bytes@.len() <= 32,
        ensures
            *final(self) == spec_write_short(*old(self), bytes@),
    {
        let n: usize = bytes.len();
        let n64: u64 = n as u64;
        let (lo2, hi2) = wmul(SALT0 ^ self.seed_b, SALT1 ^ n64);
        let m: usize = if n < 16 {
            n
        } else {
            16
        };
        let head: &[u8] = slice_subrange(bytes, 0, m);
        let (a, b) = read_short(head);
        self.acc_lo = a ^ lo2 ^ n64;
        self.acc_hi = b ^ hi2 ^ self.seed_a;
        if n > 16 {
            let rest: &[u8] = slice_subrange(bytes, 16, n);
            let (u, v) = read_short(rest);
            let (lo0, hi0) = wmul(SALT2, SALT3 ^ u);
            let (lo1, hi1) = wmul(SALT4, SALT5 ^ v);
            self.acc_lo = self.acc_lo ^ lo0 ^ hi1;
            self.acc_hi = self.acc_hi ^ lo1 ^ hi0;
        }
    }

    /// The medium size class: forward and tail-anchored 16-byte windows
    /// walked in lockstep.  Total for every length; dispatched to for 33-256
    /// bytes and for the long class's sub-96-byte tail.
    pub fn write_medim(&mut self, bytes: &[u8])
        ensures
            *final(self) == spec_write_medim(*old(self), bytes@),
    {
        let n: usize = bytes.len();
        let times: usize = n / 32 + if n % 32 == 0 {
            0
        } else {
            1
        };
        let cap: usize = n / 16;
        let rounds: usize = if times < cap {
            times
        } else {
            cap
        };
        let mut i: u64 = self.acc_lo;
        let mut j: u64 = self.acc_hi;
        let mut t: usize = 0;
        while t < rounds
            invariant
                t <= rounds,
                rounds == medim_rounds(bytes@.len() as int),
                16 * rounds <= bytes@.len(),
                n == bytes@.len(),
                *self == *old(self),
                (i, j) == medim_loop(
                    old(self).acc_lo,
                    old(self).acc_hi,
                    old(self).seed_a,
                    old(self).seed_b,
                    bytes@,
                    t as int,
                ),
            decreases rounds - t,
        {
            let base: usize = 16 * t;
            let rbase: usize = n - 16 * t - 16;
            i = fmul(i ^ read_u64(bytes, base), self.seed_b ^ read_u64(bytes, rbase + 8));
            j = fmul(j ^ read_u64(bytes, base + 8), self.seed_a ^ read_u64(bytes, rbase));
            t = t + 1;
        }
        let rot: u64 = (n as u64) % 64;
        self.acc_lo = rotate_left_64(self.acc_lo, rot) ^ i;
        self.acc_hi = rotate_right_64(self.acc_hi, rot) ^ j;
    }

    /// The long size class: 96-byte ring blocks, then the tail through the
    /// medium algorithm.  Total for every length; dispatched to for 257 bytes
    /// and more.
    pub fn write_loong(&mut self, bytes: &[u8])
        ensures
            *final(self) == spec_write_loong(*old(self), bytes@),
    {
        let n: usize = bytes.len();
        let init = ring_init_state(self.seed_a, self.seed_b);
        let mut x0: u64 = init.0;
        let mut x1: u64 = init.1;
        let mut x2: u64 = init.2;
        let mut x3: u64 = init.3;
        let mut x4: u64 = init.4;
        let mut x5: u64 = init.5;
        let mut rp: u64 = SALT6;
        let mut pos: usize = 0;
        while n >= 96 && pos <= n - 96
            invariant
                pos % 96 == 0,
                pos <= n,
                n == bytes@.len(),
                *self == *old(self),
                (RingState { s0: x0, s1: x1, s2: x2, s3: x3, s4: x4, s5: x5, prev: rp })
                    == ring_blocks(
                    ring_init(old(self).seed_a, old(self).seed_b),
                    bytes@,
                    pos as int / 96,
                ),
            decreases n - pos,
        {
            let a0: u64 = x0 ^ read_u64(bytes, pos);
            let a1: u64 = x1 ^ read_u64(bytes, pos + 8);
            let (lo0, hi0) = wmul(a0, a1);
            let n0: u64 = rp ^ hi0;
            let b1: u64 = a1 ^ read_u64(bytes, pos + 16);
            let a2: u64 = x2 ^ read_u64(bytes, pos + 24);
            let (lo1, hi1) = wmul(b1, a2);
            let n1: u64 = lo0 ^ hi1;
            let b2: u64 = a2 ^ read_u64(bytes, pos + 32);
            let a3: u64 = x3 ^ read_u64(bytes, pos + 40);
            let (lo2, hi2) = wmul(b2, a3);
            let n2: u64 = lo1 ^ hi2;
            let b3: u64 = a3 ^ read_u64(bytes, pos + 48);
            let a4: u64 = x4 ^ read_u64(bytes, pos + 56);
            let (lo3, hi3) = wmul(b3, a4);
            let n3: u64 = lo2 ^ hi3;
            let b4: u64 = a4 ^ read_u64(bytes, pos + 64);
            let a5: u64 = x5 ^ read_u64(bytes, pos + 72);
            let (lo4, hi4) = wmul(b4, a5);
            let n4: u64 = lo3 ^ hi4;
            let b5: u64 = a5 ^ read_u64(bytes, pos + 80);
            let c0: u64 = n0 ^ read_u64(bytes, pos + 88);
            let (lo5, hi5) = wmul(b5, c0);
            let n5: u64 = lo4 ^ hi5;
            proof {
                assert(pos as int == 96 * (pos as int / 96));
                assert((pos + 96) as int / 96 == pos as int / 96 + 1);
            }
            x0 = c0;
            x1 = n1;
            x2 = n2;
            x3 = n3;
            x4 = n4;
            x5 = n5;
            rp = lo5;
            pos = pos + 96;
        }
        proof {
            assert(pos as int / 96 == bytes@.len() as int / 96);
        }
        x0 = x0 ^ rp;
        self.acc_lo = self.acc_lo ^ x0.wrapping_add(x2).wrapping_add(x4);
        self.acc_hi = self.acc_hi ^ x1.wrapping_add(x3).wrapping_add(x5);
        let tail: &[u8] = slice_subrange(bytes, pos, n);
        self.write_medim(tail);
    }

    /// A fixed-width numeric write of `bits` bits (1 to 128): flushes the
    /// sponge first when the value would not fit.
    fn write_num(&mut self, x: u128, bits: usize)
        requires
            1 <= bits <= 128,
        ensures
            *final(self) == spec_write_num(*old(self), x, bits as int),
    {
        if self.sponge_len > 128 - bits {
            let (lo, hi) = u128_to_u64s(self.sponge);
            let (lolo, lohi) = wmul(lo ^ self.acc_lo, hi ^ self.seed_b);
            let (hilo, hihi) = wmul(hi ^ self.acc_hi, lo ^ self.seed_a);
            self.acc_lo = lolo ^ hihi;
            self.acc_hi = hilo ^ lohi;
            self.sponge = self.sponge ^ 0xffffffffffffffffffffffffffffffff;
            self.sponge_len = 0;
        }
        self.sponge = self.sponge ^ (x << self.sponge_len);
        self.sponge_len = self.sponge_len + bits;
    }

    /// Writes one unsigned 8-bit value through the sponge.
    pub fn write_u8(&mut self, i: u8)
        ensures
            *final(self) == spec_write_num(*old(self), i as u128, 8),
    {
        self.write_num(i as u128, 8);
    }

    /// Writes one unsigned 16-bit value through the sponge.
    pub fn write_u16(&mut self, i: u16)
        ensures
            *final(self) == spec_write_num(*old(self), i as u128, 16),
    {
        self.write_num(i as u128, 16);
    }

    /// Writes one unsigned 32-bit value through the sponge.
    pub fn write_u32(&mut self, i: u32)
        ensures
            *final(self) == spec_write_num(*old(self), i as u128, 32),
    {
        self.write_num(i as u128, 32);
    }

    /// Writes one unsigned 64-bit value through the sponge.
    pub fn write_u64(&mut self, i: u64)
        ensures
            *final(self) == spec_write_num(*old(self), i as u128, 64),
    {
        self.write_num(i as u128, 64);
    }

    /// Writes one unsigned 128-bit value through the sponge.
    pub fn write_u128(&mut self, i: u128)
        ensures
            *final(self) == spec_write_num(*old(self), i, 128),
    {
        self.write_num(i, 128);
    }

    /// Writes one pointer-width value through the sponge.  Pointer-width
    /// values are widened to the 64-bit shortcut.
    pub fn write_usize(&mut self, i: usize)
        ensures
            *final(self) == spec_write_num(*old(self), i as u128, 64),
    {
        self.write_num(i as u128, 64);
    }

    /// Writes one signed 8-bit value through the sponge, as its two's
    /// complement bits.
    pub fn write_i8(&mut self, i: i8)
        ensures
            *final(self) == spec_write_num(*old(self), (i as u8) as u128, 8),
    {
        let u: u8 = #[verifier::truncate] (i as u8);
        self.write_u8(u);
    }

    /// Writes one signed 16-bit value through the sponge, as its two's
    /// complement bits.
    pub fn write_i16(&mut self, i: i16)
        ensures
            *final(self) == spec_write_num(*old(self), (i as u16) as u128, 16),
    {
        let u: u16 = #[verifier::truncate] (i as u16);
        self.write_u16(u);
    }

    /// Writes one signed 32-bit value through the sponge, as its two's
    /// complement bits.
    pub fn write_i32(&mut self, i: i32)
        ensures
            *final(self) == spec_write_num(*old(self), (i as u32) as u128, 32),
    {
        let u: u32 = #[verifier::truncate] (i as u32);
        self.write_u32(u);
    }

    /// Writes one signed 64-bit value through the sponge, as its two's
    /// complement bits.
    pub fn write_i64(&mut self, i: i64)
        ensures
            *final(self) == spec_write_num(*old(self), (i as u64) as u128, 64),
    {
        let u: u64 = #[verifier::truncate] (i as u64);
        self.write_u64(u);
    }

    /// Writes one signed 128-bit value through the sponge, as its two's
    /// complement bits.
    pub fn write_i128(&mut self, i: i128)
        ensures
            *final(self) == spec_write_num(*old(self), i as u128, 128),
    {
        let u: u128 = #[verifier::truncate] (i as u128);
        self.write_u128(u);
    }

    /// Writes one signed pointer-width value through the sponge, as its
    /// two's complement bits widened to the 64-bit shortcut.
    pub fn write_isize(&mut self, i: isize)
        ensures
            *final(self) == spec_write_num(*old(self), (i as usize) as u128, 64),
    {
        let u: usize = #[verifier::truncate] (i as usize);
        self.write_usize(u);
    }
}

/// The six initial ring-state words as a tuple, in slot order.
fn ring_init_state(sa: u64, sb: u64) -> (r: (u64, u64, u64, u64, u64, u64))
    ensures
        ring_init(sa, sb) == (RingState {
            s0: r.0,
            s1: r.1,
            s2: r.2,
            s3: r.3,
            s4: r.4,
            s5: r.5,
            prev: SALT6,
        }),
{
    (
        SALT0.wrapping_add(sa),
        SALT1.wrapping_sub(sb),
        SALT2 ^ sa,
        SALT3.wrapping_add(sb),
        SALT4.wrapping_sub(sa),
        SALT5 ^ sb,
    )
}

} // verus!
