use vstd::arithmetic::div_mod::{lemma_add_mod_noop, lemma_mod_self_0, lemma_small_mod};
use vstd::prelude::*;

use crate::error::RngError;

verus! {

/// Multiplier of the 64-bit linear congruential step.
pub const LCG_MULTIPLIER: u64 = 6364136223846793005;

/// Increment of the 64-bit linear congruential step.
pub const LCG_INCREMENT: u64 = 1;

/// The 64-bit linear congruential transition:
/// `state * LCG_MULTIPLIER + LCG_INCREMENT`, reduced modulo 2^64.
pub open spec fn lcg_step(s: u64) -> u64 {
    ((s * LCG_MULTIPLIER + LCG_INCREMENT) % 0x1_0000_0000_0000_0000) as u64
}

/// Rotate a 64-bit word right; the rotation amount is taken modulo the
/// word width, and rotating by zero is the identity.
pub open spec fn rotr64(x: u64, rot: u64) -> u64 {
    let r = rot % 64;
    if r == 0 {
        x
    } else {
        (x >> r) | (x << ((64 - r) as u64))
    }
}

/// The PCG-XSH-RR transition: a linear congruential step, whose result is
/// xorshifted down to the high-entropy bits and then rotated by its own
/// top six bits.
pub open spec fn pcg_step(s: u64) -> u64 {
    rotr64(((lcg_step(s) >> 18) ^ lcg_step(s)) >> 27, lcg_step(s) >> 59)
}

/// The transition function selected by `alg`.
pub open spec fn step(alg: Algorithm, s: u64) -> u64 {
    match alg {
        Algorithm::Lcg => lcg_step(s),
        Algorithm::Pcg => pcg_step(s),
    }
}

/// The engine state reached from `seed` after `n` advances under `alg`.
pub open spec fn nth_state(alg: Algorithm, seed: u64, n: nat) -> u64
    decreases n,
{
    if n == 0 {
        seed
    } else {
        step(alg, nth_state(alg, seed, (n - 1) as nat))
    }
}

/// Supported generator algorithms.
#[derive(Clone, Copy, Debug, PartialEq, Eq, Structural)]
pub enum Algorithm {
    /// Linear congruential generator (the default).
    Lcg,
    /// Permuted congruential generator (PCG-XSH-RR).
    Pcg,
}

/// A seedable pseudo-random number generator.
///
/// Holds a 64-bit state word (the seed, before the first advance) and the
/// algorithm that drives every advance. Any state value is legal,
/// including zero. Not a cryptographic bit source.
pub struct RNG {
    /// Current engine state; doubles as the seed before the first advance.
    pub seed: u64,
    /// Transition function applied by `next`.
    pub algorithm: Algorithm,
}

/// One 64-bit linear congruential step, with wraparound semantics.
pub fn lcg(seed: u64) -> (r: u64)
    ensures
        r == lcg_step(seed),
{
    let product = seed.wrapping_mul(LCG_MULTIPLIER);
    let r = product.wrapping_add(LCG_INCREMENT);
    proof {
        let m = 0x1_0000_0000_0000_0000int;
        let p = seed * LCG_MULTIPLIER;
        lemma_small_mod(1nat, m as nat);
        lemma_add_mod_noop(p, 1int, m);
        if product + 1 < m {
            lemma_small_mod((product + 1) as nat, m as nat);
        } else {
            lemma_mod_self_0(m);
        }
    }
    r
}

/// Rotate `x` right by `rot` bits within a 64-bit word.
pub(crate) fn rotate_right_64(x: u64, rot: u64) -> (r: u64)
    requires
        rot < 64,
    ensures
        r == rotr64(x, rot),
{
    if rot == 0 {
        x
    } else {
        (x >> rot) | (x << (64 - rot))
    }
}

/// One PCG-XSH-RR step: advance the congruential engine, then permute the
/// result by xorshift and rotation.
pub fn pcg(seed: u64) -> (r: u64)
    ensures
        r == pcg_step(seed),
{
    let state = lcg(seed);
    let xorshifted = ((state >> 18) ^ state) >> 27;
    let rot = state >> 59;
    assert(state >> 59 < 64) by (bit_vector);
    rotate_right_64(xorshifted, rot)
}

impl RNG {
    /// Create a generator with the given seed and the default algorithm.
    /// Any seed is valid, including zero.
    pub fn new(seed: u64) -> (r: Self)
        ensures
            r.seed == seed,
            r.algorithm == Algorithm::Lcg,
    {
        Self { seed, algorithm: Algorithm::Lcg }
    }

    /// Create a generator seeded from the system clock, as nanoseconds
    /// since the Unix epoch. Fails with `RngError::TimeBeforeEpoch` when
    /// the clock reports an instant before the epoch; no fallback seed is
    /// ever substituted, so a degenerate sequence cannot appear silently.
    pub fn from_time() -> (r: Result<Self, RngError>)
        ensures
            r matches Ok(g) ==> g.algorithm == Algorithm::Lcg,
            r matches Err(e) ==> e == RngError::TimeBeforeEpoch,
    {
        match now_nanos_since_unix_epoch() {
            Some(nanos) => Ok(Self { seed: nanos, algorithm: Algorithm::Lcg }),
            None => Err(RngError::TimeBeforeEpoch),
        }
    }

    /// Switch the transition function used by subsequent advances.
    /// Does not advance or otherwise alter the state.
    pub fn set_algorithm(&mut self, algorithm: Algorithm)
        ensures
            final(self).algorithm == algorithm,
            final(self).seed == old(self).seed,
    {
        self.algorithm = algorithm;
    }

    /// Advance the engine one step and return the new state. This is the
    /// sole mutator of engine state.
    pub fn next(&mut self) -> (r: u64)
        ensures
            final(self).seed == step(old(self).algorithm, old(self).seed),
            final(self).algorithm == old(self).algorithm,
            r == final(self).seed,
    {
        self.seed = match self.algorithm {
            Algorithm::Lcg => lcg(self.seed),
            Algorithm::Pcg => pcg(self.seed),
        };
        self.seed
    }
}

/// Relies on `std::time::SystemTime::now` and `SystemTime::duration_since`:
/// the nanoseconds from the Unix epoch to the present instant, truncated to
/// 64 bits, or `None` when the clock reports an instant before the epoch.
/// The value depends on the clock, so nothing is promised of it.
#[verifier::external_body]
fn now_nanos_since_unix_epoch() -> Option<u64> {
    match std::time::SystemTime::now().duration_since(std::time::UNIX_EPOCH) {
        Ok(d) => Some(d.as_nanos() as u64),
        Err(_) => None,
    }
}

/// Determinism: two generators holding the same seed and the same
/// algorithm reach the same state after any number of advances, so their
/// raw output streams are identical.
pub proof fn lemma_deterministic(a: RNG, b: RNG, n: nat)
    requires
        a.seed == b.seed,
        a.algorithm == b.algorithm,
    ensures
        nth_state(a.algorithm, a.seed, n) == nth_state(b.algorithm, b.seed, n),
{
}

/// The linear congruential step has no fixed point: advancing always
/// changes the state, whatever the seed.
pub proof fn lemma_lcg_changes_state(s: u64)
    by (bit_vector)
    ensures
        lcg_step(s) != s,
{
}

/// Advancing a generator that runs the linear congruential algorithm
/// always changes its state.
pub proof fn lemma_advance_changes_state(g: RNG)
    requires
        g.algorithm == Algorithm::Lcg,
    ensures
        step(g.algorithm, g.seed) != g.seed,
{
    lemma_lcg_changes_state(g.seed);
}

} // verus!
