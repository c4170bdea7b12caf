//! Window shapes and their exact formula constants.
//!
//! Every supported window is a raised-cosine family member: for a normalized
//! position `r` in `[0, 2]` the ideal coefficient is
//!
//! ```text
//! value(r) = a0 - a1 * cos(pi * r) + a2 * cos(2 * pi * r)
//! ```
//!
//! The constants `a0`, `a1`, `a2` are fixed per shape and are all exact
//! decimal fractions, so they are carried here as rationals over a common
//! denominator. This pins the contract constants exactly:
//!
//! * Hann: `a0 = a1 = 1/2`, `a2 = 0`;
//! * Hamming: the classical `a0 = 0.54`, `a1 = 0.46`, `a2 = 0` (the rounded
//!   constants, not the `25/46`, `21/46` variant);
//! * Blackman: the standard `a0 = 0.42`, `a1 = 0.5`, `a2 = 0.08`.

use vstd::prelude::*;

verus! {

/// The supported window shapes.
#[derive(Clone, Copy, Debug, PartialEq, Eq, Structural)]
pub enum WindowShape {
    Hann,
    Hamming,
    Blackman,
}

/// The formula constants of one shape, as exact rationals over the common
/// denominator `den`: `a0 = a0_num/den`, `a1 = a1_num/den`, `a2 = a2_num/den`.
#[derive(Clone, Copy, Debug, PartialEq, Eq, Structural)]
pub struct Coefficients {
    pub a0_num: u32,
    pub a1_num: u32,
    pub a2_num: u32,
    pub den: u32,
}

/// The exact constants of each shape, over the denominator 50:
/// Hann `0.5 - 0.5 cos(pi r)`, Hamming `0.54 - 0.46 cos(pi r)`,
/// Blackman `0.42 - 0.5 cos(pi r) + 0.08 cos(2 pi r)`.
pub open spec fn coeffs_of(shape: WindowShape) -> Coefficients {
    match shape {
        WindowShape::Hann => (Coefficients { a0_num: 25, a1_num: 25, a2_num: 0, den: 50 }),
        WindowShape::Hamming => (Coefficients { a0_num: 27, a1_num: 23, a2_num: 0, den: 50 }),
        WindowShape::Blackman => (Coefficients { a0_num: 21, a1_num: 25, a2_num: 4, den: 50 }),
    }
}

impl WindowShape {
    /// The exact formula constants of this shape.
    pub fn coefficients(self) -> (c: Coefficients)
        ensures
            c == coeffs_of(self),
    {
        match self {
            WindowShape::Hann => Coefficients { a0_num: 25, a1_num: 25, a2_num: 0, den: 50 },
            WindowShape::Hamming => Coefficients { a0_num: 27, a1_num: 23, a2_num: 0, den: 50 },
            WindowShape::Blackman => Coefficients { a0_num: 21, a1_num: 25, a2_num: 4, den: 50 },
        }
    }
}

/// Every shape's rationals are well defined: the common denominator is
/// positive.
pub proof fn lemma_coeffs_wf(shape: WindowShape)
    ensures
        coeffs_of(shape).den > 0,
{
}

/// Every shape peaks at exactly 1: at the window's center, `r == 1`, where
/// `cos(pi) == -1` and `cos(2 pi) == 1`, the ideal coefficient is
/// `a0 + a1 + a2`, and the constants of every shape sum to the denominator.
pub proof fn lemma_unit_peak(shape: WindowShape)
    ensures
        coeffs_of(shape).a0_num + coeffs_of(shape).a1_num + coeffs_of(shape).a2_num
            == coeffs_of(shape).den,
{
}

/// Every shape's edge value is nonnegative: at `r == 0` or `r == 2`, where
/// both cosines are 1, the ideal coefficient is `a0 - a1 + a2`, and for every
/// shape `a0 + a2 >= a1` (Hann and Blackman edges are exactly 0, the Hamming
/// edge is `4/50 = 0.08`).
pub proof fn lemma_edge_nonnegative(shape: WindowShape)
    ensures
        coeffs_of(shape).a0_num + coeffs_of(shape).a2_num >= coeffs_of(shape).a1_num,
{
}

} // verus!
