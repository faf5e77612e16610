use vstd::prelude::*;

use crate::engine::{step, RNG};
use crate::error::RngError;

verus! {

/// The low bits of a raw output: the raw word reduced modulo `modulus`,
/// which is 2 to the requested bit width.
pub open spec fn low_bits(raw: u64, modulus: int) -> int {
    (raw as int) % modulus
}

/// The low bits of a raw output reinterpreted as a two's-complement signed
/// value of the width whose modulus (2 to the bit width) is given.
pub open spec fn signed_value(raw: u64, modulus: int) -> int {
    let low = (raw as int) % modulus;
    if low < modulus / 2 {
        low
    } else {
        low - modulus
    }
}

/// The bounded value derived from one raw output for the inclusive range
/// `[min, max]`: the raw word reduced modulo the range's span, shifted up
/// by `min`.
pub open spec fn range_value(raw: u64, min: u64, max: u64) -> u64
    recommends
        min < max,
{
    (raw % ((max - min + 1) as u64) + min) as u64
}

impl RNG {
    /// Generate a value in the inclusive range `[min, max]`, consuming one
    /// advance. Fails with `RngError::InvalidArgument`, without advancing,
    /// whenever `max <= min`; it never clamps. The mapping is one raw
    /// output reduced modulo the span, so it carries the slight modulo
    /// bias of that mapping.
    pub fn gen_range(&mut self, min: u64, max: u64) -> (r: Result<u64, RngError>)
        requires
            !(min == 0 && max == u64::MAX),
        ensures
            final(self).algorithm == old(self).algorithm,
            max <= min ==> r == Err::<u64, RngError>(RngError::InvalidArgument) && *final(self)
                == *old(self),
            max > min ==> final(self).seed == step(old(self).algorithm, old(self).seed) && r
                == Ok::<u64, RngError>(range_value(final(self).seed, min, max)),
            r matches Ok(v) ==> min <= v <= max,
    {
        if max <= min {
            return Err(RngError::InvalidArgument);
        }
        let range = max - min + 1;
        Ok((self.next() % range) + min)
    }

    /// Generate a boolean from the low bit of one raw output.
    pub fn gen_bool(&mut self) -> (r: bool)
        ensures
            final(self).seed == step(old(self).algorithm, old(self).seed),
            final(self).algorithm == old(self).algorithm,
            r == (final(self).seed % 2 == 1),
    {
        let raw = self.next();
        assert(raw & 1 == raw % 2) by (bit_vector);
        raw & 1 == 1
    }

    /// Generate an unsigned integer of the requested bit width, as the low
    /// `size` bits of one raw output, zero-extended into the return type.
    /// Fails with `RngError::InvalidArgument`, without advancing, for any
    /// width other than 8, 16, 32 or 64.
    pub fn gen_unsigned(&mut self, size: u8) -> (r: Result<usize, RngError>)
        ensures
            final(self).algorithm == old(self).algorithm,
            size == 8 || size == 16 || size == 32 || size == 64 ==> final(self).seed == step(
                old(self).algorithm,
                old(self).seed,
            ),
            !(size == 8 || size == 16 || size == 32 || size == 64) ==> r == Err::<
                usize,
                RngError,
            >(RngError::InvalidArgument) && *final(self) == *old(self),
            size == 8 ==> (r matches Ok(v) && v == low_bits(final(self).seed, 0x100) && v < 0x100),
            size == 16 ==> (r matches Ok(v) && v == low_bits(final(self).seed, 0x1_0000) && v
                < 0x1_0000),
            size == 32 ==> (r matches Ok(v) && v == low_bits(final(self).seed, 0x1_0000_0000) && v
                < 0x1_0000_0000),
            size == 64 ==> (r matches Ok(v) && v == final(self).seed as usize),
    {
        match size {
            8 => {
                let raw = self.next();
                assert((raw as u8) as u64 == raw % 0x100) by (bit_vector);
                Ok((#[verifier::truncate] (raw as u8)) as usize)
            },
            16 => {
                let raw = self.next();
                assert((raw as u16) as u64 == raw % 0x1_0000) by (bit_vector);
                Ok((#[verifier::truncate] (raw as u16)) as usize)
            },
            32 => {
                let raw = self.next();
                assert((raw as u32) as u64 == raw % 0x1_0000_0000) by (bit_vector);
                Ok((#[verifier::truncate] (raw as u32)) as usize)
            },
            64 => {
                let raw = self.next();
                Ok(#[verifier::truncate] (raw as usize))
            },
            _ => Err(RngError::InvalidArgument),
        }
    }

    /// Generate a signed integer of the requested bit width: the low
    /// `size` bits of one raw output reinterpreted as a two's-complement
    /// value of that width, sign-extended into the return type. Fails with
    /// `RngError::InvalidArgument`, without advancing, for any width other
    /// than 8, 16, 32 or 64.
    pub fn gen_signed(&mut self, size: u8) -> (r: Result<isize, RngError>)
        ensures
            final(self).algorithm == old(self).algorithm,
            size == 8 || size == 16 || size == 32 || size == 64 ==> final(self).seed == step(
                old(self).algorithm,
                old(self).seed,
            ),
            !(size == 8 || size == 16 || size == 32 || size == 64) ==> r == Err::<
                isize,
                RngError,
            >(RngError::InvalidArgument) && *final(self) == *old(self),
            size == 8 ==> (r matches Ok(v) && v == signed_value(final(self).seed, 0x100) && -0x80
                <= v < 0x80),
            size == 16 ==> (r matches Ok(v) && v == signed_value(final(self).seed, 0x1_0000)
                && -0x8000 <= v < 0x8000),
            size == 32 ==> (r matches Ok(v) && v == signed_value(final(self).seed, 0x1_0000_0000)
                && -0x8000_0000 <= v < 0x8000_0000),
            size == 64 ==> (r matches Ok(v) && v == (final(self).seed as i64) as isize),
    {
        match size {
            8 => {
                let raw = self.next();
                assert((raw as i8) as int == (if (raw as int) % 0x100 < 0x80 {
                    (raw as int) % 0x100
                } else {
                    (raw as int) % 0x100 - 0x100
                })) by (bit_vector);
                Ok((#[verifier::truncate] (raw as i8)) as isize)
            },
            16 => {
                let raw = self.next();
                assert((raw as i16) as int == (if (raw as int) % 0x1_0000 < 0x8000 {
                    (raw as int) % 0x1_0000
                } else {
                    (raw as int) % 0x1_0000 - 0x1_0000
                })) by (bit_vector);
                Ok((#[verifier::truncate] (raw as i16)) as isize)
            },
            32 => {
                let raw = self.next();
                assert((raw as i32) as int == (if (raw as int) % 0x1_0000_0000 < 0x8000_0000 {
                    (raw as int) % 0x1_0000_0000
                } else {
                    (raw as int) % 0x1_0000_0000 - 0x1_0000_0000
                })) by (bit_vector);
                Ok((#[verifier::truncate] (raw as i32)) as isize)
            },
            64 => {
                let raw = self.next();
                Ok(#[verifier::truncate] ((#[verifier::truncate] (raw as i64)) as isize))
            },
            _ => Err(RngError::InvalidArgument),
        }
    }

    /// Pick a uniformly chosen element of `slice`, consuming one advance,
    /// or `None` without advancing when the slice is empty. The element is
    /// borrowed from the caller's slice, never copied. A one-element slice
    /// is outside the domain: the index would come from the range
    /// `[0, 0]`, which the range sampler rejects.
    pub fn pick_random<'a, T>(&mut self, slice: &'a [T]) -> (r: Option<&'a T>)
        requires
            slice@.len() != 1,
        ensures
            final(self).algorithm == old(self).algorithm,
            slice@.len() == 0 ==> r is None && *final(self) == *old(self),
            slice@.len() > 1 ==> final(self).seed == step(old(self).algorithm, old(self).seed) && (
            r matches Some(x) && *x == slice@[range_value(
                final(self).seed,
                0,
                (slice@.len() - 1) as u64,
            ) as int]),
    {
        if slice.len() == 0 {
            None
        } else {
            match self.gen_range(0, (slice.len() - 1) as u64) {
                Ok(idx) => Some(&slice[idx as usize]),
                Err(_) => None,
            }
        }
    }
}

} // verus!
