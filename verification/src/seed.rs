//! Seed generation: the deterministic and the randomized hash-family
//! selector.
//!
//! A seed state is two 64-bit words naming one member of the hash family.
//! `FixedState` takes them verbatim, for reproducible digests.  `RandomState`
//! derives a fresh pair per construction, purely to blunt hash-flooding
//! attacks: two entropy words are drawn from the standard library's
//! per-thread random state and mixed through three wide multiplies against
//! the constant pool; the mixing itself is verified exactly, only the
//! entropy draw is trusted.

use vstd::prelude::*;

use crate::hasher::init_state;
use crate::hasher::MuseHasher;
use crate::mixing::mul_hi;
use crate::mixing::mul_lo;
use crate::mixing::wmul;
use crate::mixing::SALT0;
use crate::mixing::SALT1;
use crate::mixing::SALT2;
use crate::mixing::SALT3;
use crate::mixing::SALT4;
use crate::mixing::SALT5;
use std::hash::BuildHasher;
use std::hash::Hasher;

verus! {

/// Relies on std::collections::hash_map::RandomState::new: every instance
/// holds keys drawn from a per-thread random state that changes with each
/// construction.  Nothing can be promised of a random value.
pub assume_specification[ std::collections::hash_map::RandomState::new ]() -> (r:
    std::collections::hash_map::RandomState);

/// Relies on the BuildHasher impl of std::collections::hash_map::RandomState:
/// it returns a DefaultHasher keyed by the random state, so nothing is
/// promised of the hasher's abstract write sequence.
pub assume_specification[ <std::collections::hash_map::RandomState as BuildHasher>::build_hasher ](
    s: &std::collections::hash_map::RandomState,
) -> (h: std::collections::hash_map::DefaultHasher);

/// One word of weak entropy: the digest of an empty write sequence under a
/// freshly drawn random hasher key.  Different calls return different words
/// with high probability; no contract pins the value.
fn entropy_word() -> u64 {
    let state = std::collections::hash_map::RandomState::new();
    let hasher = state.build_hasher();
    hasher.finish()
}

/// The seed pair the randomized generator derives from two entropy words:
/// three wide multiplies arranged so each product's halves cross over, the
/// mixed words then subtracted (wrapping) from the first two constants.
pub open spec fn spec_mix_entropy(a: u64, b: u64) -> (u64, u64) {
    let lo0 = mul_lo(a ^ SALT0, b ^ SALT1);
    let hi0 = mul_hi(a ^ SALT0, b ^ SALT1);
    let lo1 = mul_lo(a ^ SALT2, SALT1 ^ SALT3);
    let hi1 = mul_hi(a ^ SALT2, SALT1 ^ SALT3);
    let lo2 = mul_lo(SALT0 ^ SALT4, b ^ SALT5);
    let hi2 = mul_hi(SALT0 ^ SALT4, b ^ SALT5);
    let na = lo0 ^ hi1 ^ lo2;
    let nb = hi0 ^ lo1 ^ hi2;
    (SALT0.wrapping_sub(na), SALT1.wrapping_sub(nb))
}

/// Derives a seed pair from two entropy words.  Deterministic in its
/// arguments: all the randomness of the randomized generator lives in the
/// entropy draw, all the diffusion here.
pub fn mix_entropy(a: u64, b: u64) -> (r: (u64, u64))
    ensures
        r == spec_mix_entropy(a, b),
{
    let (lo0, hi0) = wmul(a ^ SALT0, b ^ SALT1);
    let (lo1, hi1) = wmul(a ^ SALT2, SALT1 ^ SALT3);
    let (lo2, hi2) = wmul(SALT0 ^ SALT4, b ^ SALT5);
    let na: u64 = lo0 ^ hi1 ^ lo2;
    let nb: u64 = hi0 ^ lo1 ^ hi2;
    (SALT0.wrapping_sub(na), SALT1.wrapping_sub(nb))
}

/// The deterministic seed generator: hashers built from equal `FixedState`s
/// behave identically on identical input, across runs and processes.
#[derive(Clone, Copy)]
pub struct FixedState {
    pub per_hasher_seed_a: u64,
    pub per_hasher_seed_b: u64,
}

impl FixedState {
    /// A generator that passes the caller's seed pair through verbatim.
    pub fn new(seed_a: u64, seed_b: u64) -> (r: FixedState)
        ensures
            r.per_hasher_seed_a == seed_a,
            r.per_hasher_seed_b == seed_b,
    {
        FixedState { per_hasher_seed_a: seed_a, per_hasher_seed_b: seed_b }
    }

    /// A fresh hasher seeded from this generator's pair.
    pub fn build_hasher(&self) -> (h: MuseHasher)
        ensures
            h == init_state(self.per_hasher_seed_a, self.per_hasher_seed_b),
    {
        MuseHasher::new(self.per_hasher_seed_a, self.per_hasher_seed_b)
    }
}

/// The randomized seed generator: each construction derives a fresh seed
/// pair, so independently built containers hash differently and resist
/// hash-flooding.  Not a source of cryptographic unpredictability.
#[derive(Clone, Copy)]
pub struct RandomState {
    pub per_hasher_seed_a: u64,
    pub per_hasher_seed_b: u64,
}

impl RandomState {
    /// A generator whose seed pair is mixed from two freshly drawn entropy
    /// words.  The pair always lies in the image of the verified mixing
    /// function; which member is drawn depends on the entropy source.
    pub fn new() -> (r: RandomState)
        ensures
            exists|a: u64, b: u64|
                (r.per_hasher_seed_a, r.per_hasher_seed_b) == spec_mix_entropy(a, b),
    {
        let ea: u64 = entropy_word();
        let eb: u64 = entropy_word();
        let (sa, sb) = mix_entropy(ea, eb);
        let r = RandomState { per_hasher_seed_a: sa, per_hasher_seed_b: sb };
        proof {
            assert((r.per_hasher_seed_a, r.per_hasher_seed_b) == spec_mix_entropy(ea, eb));
        }
        r
    }

    /// A fresh hasher seeded from this generator's pair.
    pub fn build_hasher(&self) -> (h: MuseHasher)
        ensures
            h == init_state(self.per_hasher_seed_a, self.per_hasher_seed_b),
    {
        MuseHasher::new(self.per_hasher_seed_a, self.per_hasher_seed_b)
    }
}

} // verus!
