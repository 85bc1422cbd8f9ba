//! Real numbers as bit patterns.

use vstd::prelude::*;

verus! {

/// Bit pattern of `0.0`.
pub const ZERO_BITS: u32 = 0;

/// Bit pattern of `0.5`.
pub const HALF_BITS: u32 = 0x3f00_0000;

/// Bit pattern of `1.0`.
pub const ONE_BITS: u32 = 0x3f80_0000;

/// Bit pattern of the binary32 number nearest to `0.00000001`.
pub const EPSILON_BITS: u32 = 0x322b_cc77;

/// All bits of a binary32 number but its sign.
pub const MAGNITUDE_MASK: u32 = 0x7fff_ffff;

/// Bit pattern of positive infinity: every larger magnitude is not a number.
pub const INFINITY_BITS: u32 = 0x7f80_0000;

/// A 32-bit floating-point number of IEEE 754 (binary32), held as its bit pattern.
///
/// The library stores, copies and compares such numbers; it never computes with
/// them. Two scalars are equal when their bit patterns are, so `0.0` and `-0.0`
/// differ and a not-a-number equals itself.
#[derive(Clone, Copy, Debug, PartialEq, Eq, Structural)]
pub struct Scalar {
    pub bits: u32,
}

impl Scalar {
    /// The bit pattern without its sign: the bit pattern of the absolute value.
    pub open spec fn magnitude(self) -> u32 {
        self.bits & MAGNITUDE_MASK
    }

    /// Whether the bit pattern stands for no number.
    pub open spec fn is_nan(self) -> bool {
        self.magnitude() > INFINITY_BITS
    }

    /// `|self| < |bound|` as IEEE 754 compares: false when either is not a number.
    /// The magnitudes of numbers are ordered as their bit patterns are.
    pub open spec fn magnitude_below(self, bound: Scalar) -> bool {
        &&& !self.is_nan()
        &&& !bound.is_nan()
        &&& self.magnitude() < bound.magnitude()
    }

    pub fn from_bits(bits: u32) -> (r: Scalar)
        ensures
            r.bits == bits,
    {
        Scalar { bits }
    }

    pub fn to_bits(self) -> (r: u32)
        ensures
            r == self.bits,
    {
        self.bits
    }

    /// Decides `|self| < |bound|`.
    pub fn is_below_in_magnitude(self, bound: Scalar) -> (r: bool)
        ensures
            r == self.magnitude_below(bound),
    {
        let own: u32 = self.bits & MAGNITUDE_MASK;
        let other: u32 = bound.bits & MAGNITUDE_MASK;
        own <= INFINITY_BITS && other <= INFINITY_BITS && own < other
    }
}

} // verus!
