//! Raw single-precision scalars.
//!
//! Style fields such as line widths, shadow offsets and dash intervals are
//! real-valued at the host interface, but the rendering engine itself never
//! computes with them: it stores them, tests them against zero, negates one
//! of them, and halves one of them.  All four of those are exact operations
//! on the IEEE 754 bit pattern, so the engine carries the 32-bit pattern
//! itself and the embedding converts at the boundary.

use vstd::prelude::*;

verus! {

/// An IEEE 754 single-precision value, carried as its raw bit pattern.
#[derive(Clone, Copy, PartialEq, Eq, Structural, Debug)]
pub struct Scalar {
    pub bits: u32,
}

impl Scalar {
    /// True of `+0.0` and `-0.0`: exactly the patterns that compare equal
    /// to zero under IEEE comparison.
    pub open spec fn spec_is_zero(self) -> bool {
        self.bits & 0x7fff_ffff == 0
    }

    /// True of finite values strictly above zero.
    pub open spec fn spec_is_pos_finite(self) -> bool {
        0 < self.bits < 0x7f80_0000
    }

    /// True of finite values that IEEE comparison orders at or above zero
    /// (this admits `-0.0`).
    pub open spec fn spec_is_finite_nonneg(self) -> bool {
        self.bits < 0x7f80_0000 || self.bits == 0x8000_0000
    }

    /// The pattern with the sign bit flipped: exact IEEE negation.
    pub open spec fn spec_neg(self) -> Scalar {
        Scalar { bits: self.bits ^ 0x8000_0000 }
    }

    /// Exact IEEE halving under round-to-nearest-even.
    ///
    /// Halving a binary floating-point value decrements the exponent when
    /// the result stays normal; when the result is subnormal the significand
    /// (with its implicit bit) shifts right one place, rounding the lost bit
    /// to even.  Infinities and NaN patterns are left as they are.
    pub open spec fn spec_half(self) -> Scalar {
        let sign = self.bits & 0x8000_0000;
        let mag = self.bits & 0x7fff_ffff;
        if mag >= 0x7f80_0000 {
            self
        } else if mag >= 0x0100_0000 {
            Scalar { bits: sign | ((mag - 0x0080_0000) as u32) }
        } else {
            Scalar { bits: sign | (((mag >> 1u32) + ((mag & 1) & ((mag >> 1u32) & 1))) as u32) }
        }
    }

    pub fn from_bits(bits: u32) -> (r: Scalar)
        ensures
            r.bits == bits,
    {
        Scalar { bits }
    }

    pub fn to_bits(self) -> (r: u32)
        ensures
            r == self.bits,
    {
        self.bits
    }

    pub fn is_zero(self) -> (r: bool)
        ensures
            r == self.spec_is_zero(),
    {
        self.bits & 0x7fff_ffff == 0
    }

    pub fn is_pos_finite(self) -> (r: bool)
        ensures
            r == self.spec_is_pos_finite(),
    {
        0 < self.bits && self.bits < 0x7f80_0000
    }

    pub fn is_finite_nonneg(self) -> (r: bool)
        ensures
            r == self.spec_is_finite_nonneg(),
    {
        self.bits < 0x7f80_0000 || self.bits == 0x8000_0000
    }

    pub fn neg(self) -> (r: Scalar)
        ensures
            r == self.spec_neg(),
    {
        Scalar { bits: self.bits ^ 0x8000_0000 }
    }

    pub fn half(self) -> (r: Scalar)
        ensures
            r == self.spec_half(),
    {
        let sign: u32 = self.bits & 0x8000_0000;
        let mag: u32 = self.bits & 0x7fff_ffff;
        if mag >= 0x7f80_0000 {
            self
        } else if mag >= 0x0100_0000 {
            Scalar { bits: sign | (mag - 0x0080_0000) }
        } else {
            assert(mag >> 1u32 <= 0x7fff_ffffu32 && ((mag & 1) & ((mag >> 1u32) & 1)) <= 1u32)
                by (bit_vector);
            let h: u32 = mag >> 1u32;
            Scalar { bits: sign | (h + ((mag & 1) & (h & 1))) }
        }
    }
}

} // verus!
