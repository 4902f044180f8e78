//! The constant pool and the wide-multiply diffusion primitive.
//!
//! Seven fixed 64-bit constants serve as multiplicative / XOR salt so that no
//! mixing step can hit a fixed point or multiply by zero.  The sole diffusion
//! primitive is a 64x64 -> 128-bit multiply split into its low and high
//! halves; a folded variant XORs the halves into one word.

use vstd::prelude::*;

verus! {

/// Fractional digits of Gamma(2/3); any similarly well-distributed constants
/// would serve.  The exact values matter only for reproducibility.
pub const SALT0: u64 = 0x5aa77928c3678cab;
pub const SALT1: u64 = 0x2f4feb702b26990a;
pub const SALT2: u64 = 0x54f7edbc621298be;
pub const SALT3: u64 = 0xb6e4e1eb259b0c87;
pub const SALT4: u64 = 0xa38abf7cde765fa6;
pub const SALT5: u64 = 0x283d1db180df5862;
pub const SALT6: u64 = 0xff0d89fac6d1825e;

/// Low 64 bits of the full 128-bit product `a * b`.
pub open spec fn mul_lo(a: u64, b: u64) -> u64 {
    (a * b) as u64
}

/// High 64 bits of the full 128-bit product `a * b`.
pub open spec fn mul_hi(a: u64, b: u64) -> u64 {
    ((a * b) / 0x10000000000000000) as u64
}

/// The two product halves folded into a single word.
pub open spec fn mul_folded(a: u64, b: u64) -> u64 {
    mul_lo(a, b) ^ mul_hi(a, b)
}

/// Low 64 bits of a 128-bit word.
pub open spec fn lo64(x: u128) -> u64 {
    x as u64
}

/// High 64 bits of a 128-bit word.
pub open spec fn hi64(x: u128) -> u64 {
    (x / 0x10000000000000000) as u64
}

/// Left rotation of a 64-bit word by `r < 64` bit positions.
pub open spec fn rotl(x: u64, r: u64) -> u64
    recommends
        r < 64,
{
    if r == 0 {
        x
    } else {
        (x << r) | (x >> ((64 - r) as u64))
    }
}

/// Right rotation of a 64-bit word by `r < 64` bit positions.
pub open spec fn rotr(x: u64, r: u64) -> u64
    recommends
        r < 64,
{
    if r == 0 {
        x
    } else {
        (x >> r) | (x << ((64 - r) as u64))
    }
}

/// 64x64 -> 128-bit multiply, returned as (low half, high half).
pub fn wmul(a: u64, b: u64) -> (r: (u64, u64))
    ensures
        r.0 == mul_lo(a, b),
        r.1 == mul_hi(a, b),
{
    proof {
        assert(a * b <= 0xffffffffffffffff * 0xffffffffffffffff) by (nonlinear_arith)
            requires
                a <= 0xffffffffffffffffu64,
                b <= 0xffffffffffffffffu64,
        ;
    }
    let p: u128 = (a as u128) * (b as u128);
    let lo: u64 = #[verifier::truncate] (p as u64);
    let hi: u64 = #[verifier::truncate] ((p / 0x10000000000000000) as u64);
    (lo, hi)
}

/// The two halves of the wide product XORed together.
pub fn fmul(a: u64, b: u64) -> (r: u64)
    ensures
        r == mul_folded(a, b),
{
    let (lo, hi) = wmul(a, b);
    lo ^ hi
}

/// Splits a 128-bit word into (low half, high half).
pub fn u128_to_u64s(x: u128) -> (r: (u64, u64))
    ensures
        r.0 == lo64(x),
        r.1 == hi64(x),
{
    let lo: u64 = #[verifier::truncate] (x as u64);
    let hi: u64 = #[verifier::truncate] ((x / 0x10000000000000000) as u64);
    (lo, hi)
}

/// Left rotation by `r < 64` bit positions.
pub fn rotate_left_64(x: u64, r: u64) -> (out: u64)
    requires
        r < 64,
    ensures
        out == rotl(x, r),
{
    if r == 0 {
        x
    } else {
        (x << r) | (x >> ((64 - r) as u64))
    }
}

/// Right rotation by `r < 64` bit positions.
pub fn rotate_right_64(x: u64, r: u64) -> (out: u64)
    requires
        r < 64,
    ensures
        out == rotr(x, r),
{
    if r == 0 {
        x
    } else {
        (x >> r) | (x << ((64 - r) as u64))
    }
}

} // verus!
