//! A small, seedable pseudo-random number generator.
//!
//! The engine keeps a single 64-bit state word and advances it with a
//! linear congruential step, optionally permuting the output (PCG-XSH-RR).
//! On top of the raw stream sit derivation helpers: bounded integers,
//! booleans, fixed-width integers, and uniform picks from a slice.
//!
//! The generator is deterministic and fast; it is not a cryptographic
//! bit source and must never be used as one.

mod engine;
mod error;
mod sample;

pub use engine::lcg;
pub use engine::lcg_step;
pub use engine::lemma_advance_changes_state;
pub use engine::lemma_deterministic;
pub use engine::lemma_lcg_changes_state;
pub use engine::nth_state;
pub use engine::pcg;
pub use engine::pcg_step;
pub use engine::rotr64;
pub use engine::step;
pub use engine::Algorithm;
pub use engine::LCG_INCREMENT;
pub use engine::LCG_MULTIPLIER;
pub use engine::RNG;
pub use error::RngError;
pub use sample::low_bits;
pub use sample::range_value;
pub use sample::signed_value;
