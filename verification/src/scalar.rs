//! Real numbers as IEEE 754 binary64 bit patterns.

use vstd::prelude::*;

verus! {

/// The sign bit of a binary64 pattern.
pub const SIGN_BIT: u64 = 0x8000_0000_0000_0000;

/// The pattern of `0.0`.
pub const ZERO_BITS: u64 = 0;

/// The pattern of `1.0`.
pub const ONE_BITS: u64 = 0x3FF0_0000_0000_0000;

/// A real number, held as the 64 bits of its binary64 encoding.
///
/// Two scalars are equal when their patterns are: `0.0` and `-0.0` differ,
/// and a NaN equals itself.
#[derive(Clone, Copy, Debug, PartialEq, Eq, Hash, Structural)]
pub struct Scalar {
    pub bits: u64,
}

impl Scalar {
    /// The number with the opposite sign: the same pattern but for the sign
    /// bit, which is flipped.
    pub open spec fn negation(self) -> Scalar {
        if self.bits >= SIGN_BIT {
            Scalar { bits: (self.bits - SIGN_BIT) as u64 }
        } else {
            Scalar { bits: (self.bits + SIGN_BIT) as u64 }
        }
    }

    /// The scalar with the pattern `bits`.
    pub fn from_bits(bits: u64) -> (s: Scalar)
        ensures
            s.bits == bits,
    {
        Scalar { bits }
    }

    /// The pattern of the scalar.
    pub fn to_bits(self) -> (bits: u64)
        ensures
            bits == self.bits,
    {
        self.bits
    }

    /// `0.0`.
    pub fn zero() -> (s: Scalar)
        ensures
            s.bits == ZERO_BITS,
    {
        Scalar { bits: ZERO_BITS }
    }

    /// `1.0`.
    pub fn one() -> (s: Scalar)
        ensures
            s.bits == ONE_BITS,
    {
        Scalar { bits: ONE_BITS }
    }

    /// Flips the sign.
    pub fn negated(self) -> (r: Scalar)
        ensures
            r == self.negation(),
    {
        let bits: u64 = self.bits;
        let flipped: u64 = bits ^ SIGN_BIT;
        assert(flipped == if bits >= 0x8000_0000_0000_0000u64 {
            (bits - 0x8000_0000_0000_0000u64) as u64
        } else {
            (bits + 0x8000_0000_0000_0000u64) as u64
        }) by (bit_vector)
            requires
                flipped == bits ^ 0x8000_0000_0000_0000u64,
        ;
        Scalar { bits: flipped }
    }
}

} // verus!
