//! The global alpha and its exact composition with colour alphas.
//!
//! The host sets the global alpha as a real number in `[0, 1]`; the engine
//! keeps it exactly, as the fraction the host handed over, so that reading
//! it back returns it unchanged.  Composition with a colour's 8-bit alpha
//! happens in the 0–255 integer domain and rounds half away from zero; as
//! both operands are non-negative this is the same as rounding half up,
//! which the formula below implements exactly.

use vstd::prelude::*;

verus! {

/// The context's global alpha: an exact non-negative fraction `num / den`
/// with `num <= den`, so the value lies in `[0, 1]`.
#[derive(Clone, Copy, PartialEq, Eq, Structural, Debug)]
pub struct AlphaValue {
    pub num: u64,
    pub den: u64,
}

impl AlphaValue {
    pub open spec fn wf(self) -> bool {
        1 <= self.den && self.num <= self.den
    }
}

/// `round(ca * num / den)` with ties away from zero, in the integers.
///
/// For non-negative operands rounding half away from zero is rounding half
/// up, and `round_half_up(p / q) == (2p + q) / 2q` in integer division.
pub open spec fn scale_alpha(ca: int, num: int, den: int) -> int {
    (2 * ca * num + den) / (2 * den)
}

/// The scaled alpha of a byte never leaves the byte range.
pub proof fn lemma_scale_alpha_bounded(ca: int, num: int, den: int)
    requires
        0 <= ca <= 255,
        0 <= num <= den,
        1 <= den,
    ensures
        0 <= scale_alpha(ca, num, den) <= 255,
{
    assert(ca * num <= 255 * den) by (nonlinear_arith)
        requires
            0 <= ca <= 255,
            0 <= num <= den,
    ;
    assert(0 <= (2 * ca * num + den) / (2 * den) <= 255) by (nonlinear_arith)
        requires
            0 <= ca * num <= 255 * den,
            1 <= den,
    ;
}

/// Composes a colour's alpha byte with the global alpha, exactly.
pub fn mul_alpha(ca: u8, a: AlphaValue) -> (r: u8)
    requires
        a.wf(),
    ensures
        r == scale_alpha(ca as int, a.num as int, a.den as int),
{
    proof {
        lemma_scale_alpha_bounded(ca as int, a.num as int, a.den as int);
        assert(2 * (ca as int) * (a.num as int) <= 2 * 255 * 0xffff_ffff_ffff_ffff)
            by (nonlinear_arith)
            requires
                0 <= ca as int <= 255,
                0 <= a.num as int <= 0xffff_ffff_ffff_ffff,
        ;
    }
    let q: u128 = (2 * (ca as u128) * (a.num as u128) + (a.den as u128)) / (2 * (a.den as u128));
    q as u8
}

/// The global alpha as the byte the backend carries: `round(255 * num / den)`.
pub open spec fn alpha_byte(a: AlphaValue) -> int {
    scale_alpha(255, a.num as int, a.den as int)
}

pub fn alpha_to_byte(a: AlphaValue) -> (r: u8)
    requires
        a.wf(),
    ensures
        r == alpha_byte(a),
{
    mul_alpha(255, a)
}

} // verus!
