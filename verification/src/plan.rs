//! Window plans: the exact, verified description of one window.
//!
//! A plan carries everything about a requested window except the
//! floating-point evaluation itself: the formula constants of the shape and
//! the exact rational sample grid. A window of length `len >= 2` samples the
//! formula at the normalized positions `r(n) = 2n / (len - 1)`, held here as
//! the pair `(index, den) = (n, len - 1)`; a window of length 1 is the single
//! sample `1.0` and needs no grid at all.

use vstd::prelude::*;

verus! {

use crate::WindowError;
use crate::shape::Coefficients;
use crate::shape::WindowShape;
use crate::shape::coeffs_of;

/// One sample of a window: the normalized position `r = 2 * index / den`,
/// with `0 <= index <= den`, so that `r` lies in `[0, 2]`. Within one window
/// every point shares `den == len - 1` while `index` runs over `0 .. len`.
#[derive(Clone, Copy, Debug, PartialEq, Eq, Structural)]
pub struct WindowPoint {
    pub index: u64,
    pub den: u64,
}

/// The exact description of one window of a given shape and length.
#[derive(Clone, Debug)]
pub enum WindowPlan {
    /// A window of length 1: the single coefficient is exactly `1.0`,
    /// whatever the shape.
    Single,
    /// A window of length `>= 2`: coefficient `n` is the formula
    /// `a0 - a1*cos(pi*r) + a2*cos(2*pi*r)` of `coeffs`, evaluated at the
    /// position `r = 2 * points[n].index / points[n].den`.
    Sampled { coeffs: Coefficients, points: Vec<WindowPoint> },
}

/// The sample grid of a window of length `len`: point `n` holds the position
/// `r(n) = 2n / (len - 1)` as the pair `(n, len - 1)`.
pub open spec fn grid(len: int) -> Seq<WindowPoint> {
    Seq::new(len as nat, |n: int| (WindowPoint { index: n as u64, den: (len - 1) as u64 }))
}

/// What it means for `p` to describe the window of shape `shape` and length
/// `len`: length 1 is the single unit sample; any longer window carries
/// exactly the shape's constants and the full sample grid.
pub open spec fn is_plan_for(p: WindowPlan, shape: WindowShape, len: int) -> bool {
    match p {
        WindowPlan::Single => len == 1,
        WindowPlan::Sampled { coeffs, points } => {
            &&& len >= 2
            &&& coeffs == coeffs_of(shape)
            &&& points@ == grid(len)
        },
    }
}

impl WindowPlan {
    /// Builds the plan of a window of shape `shape` and length `len`.
    /// Exactly the undefined request `len == 0` is rejected; every positive
    /// length yields the full plan.
    pub fn new(shape: WindowShape, len: usize) -> (r: Result<WindowPlan, WindowError>)
        ensures
            r is Ok <==> len >= 1,
            r matches Ok(p) ==> is_plan_for(p, shape, len as int),
            r matches Err(e) ==> e == WindowError::InvalidLength,
    {
        if len == 0 {
            return Err(WindowError::InvalidLength);
        }
        if len == 1 {
            return Ok(WindowPlan::Single);
        }
        let den: u64 = (len - 1) as u64;
        let mut points: Vec<WindowPoint> = Vec::new();
        let mut n: usize = 0;
        while n < len
            invariant
                2 <= len,
                n <= len,
                den == (len - 1) as u64,
                points@.len() == n,
                forall|i: int| 0 <= i < n ==> points@[i] == grid(len as int)[i],
            decreases len - n,
        {
            points.push(WindowPoint { index: n as u64, den });
            n += 1;
        }
        proof {
            assert(points@ =~= grid(len as int));
        }
        Ok(WindowPlan::Sampled { coeffs: shape.coefficients(), points })
    }

    /// The number of coefficients this plan describes.
    pub fn len(&self) -> (n: usize)
        ensures
            self is Single ==> n == 1,
            self matches WindowPlan::Sampled { points, .. } ==> n == points@.len(),
    {
        match self {
            WindowPlan::Single => 1,
            WindowPlan::Sampled { points, .. } => points.len(),
        }
    }
}

/// A plan for length 1 is the single unit sample: for every shape, the
/// one-sample window is exactly `[1.0]`.
pub proof fn lemma_length_one_is_single(p: WindowPlan, shape: WindowShape)
    requires
        is_plan_for(p, shape, 1),
    ensures
        p is Single,
{
}

/// A plan covers exactly the requested number of samples: one for the
/// degenerate window, and a grid point per coefficient otherwise.
pub proof fn lemma_plan_covers_len(p: WindowPlan, shape: WindowShape, len: int)
    requires
        is_plan_for(p, shape, len),
        1 <= len,
    ensures
        p is Single ==> len == 1,
        (match p {
            WindowPlan::Single => true,
            WindowPlan::Sampled { points, .. } => points@.len() == len,
        }),
{
}

/// Mirror symmetry: in every sampled plan, points `n` and `len - 1 - n`
/// satisfy `index + index' == den`, that is, `r(n) + r(len - 1 - n) == 2`
/// exactly. Since `cos(pi * (2 - r)) == cos(pi * r)`, and likewise for the
/// doubled angle, the ideal coefficients at mirrored indices are equal:
/// every window described by a plan is symmetric.
pub proof fn lemma_plan_symmetric(p: WindowPlan, shape: WindowShape, len: int, n: int)
    requires
        is_plan_for(p, shape, len),
        2 <= len <= u64::MAX,
        0 <= n < len,
    ensures
        (match p {
            WindowPlan::Single => false,
            WindowPlan::Sampled { points, .. } => points@[n].index + points@[len - 1 - n].index
                == points@[n].den,
        }),
{
}

/// Every sample position lies in `[0, 2]`: each point of a sampled plan has
/// `index <= den` and a positive denominator, so `r = 2 * index / den` is
/// well defined and ranges over `[0, 2]`.
pub proof fn lemma_plan_in_range(p: WindowPlan, shape: WindowShape, len: int, n: int)
    requires
        is_plan_for(p, shape, len),
        2 <= len <= u64::MAX,
        0 <= n < len,
    ensures
        (match p {
            WindowPlan::Single => false,
            WindowPlan::Sampled { points, .. } => points@[n].index <= points@[n].den
                && points@[n].den >= 1,
        }),
{
}

} // verus!
