//! Verified core of a window-function generator (Hann, Hamming, Blackman)
//! for signal processing.
//!
//! A window of length `len` samples its shape's raised-cosine formula at the
//! normalized positions `r(n) = 2n / (len - 1)`, which run over `[0, 2]`.
//! Everything about a window that is exact — validation of the requested
//! length, the degenerate one-sample case, the rational sample grid, and the
//! formula constants of each shape — is computed and proved here. The
//! remaining step, evaluating `a0 - a1*cos(pi*r) + a2*cos(2*pi*r)` in IEEE-754
//! arithmetic at single or double precision, is floating point, which the
//! verifier does not model; a thin unverified front end performs it by walking
//! the [`plan::WindowPlan`] built here.

use vstd::prelude::*;

pub mod plan;
pub mod shape;

verus! {

use crate::plan::WindowPlan;
use crate::shape::WindowShape;

/// The one failure of a window request: a window of length 0 is not defined.
#[derive(Clone, Copy, Debug, PartialEq, Eq, Structural)]
pub enum WindowError {
    InvalidLength,
}

/// Facade for generating window-function plans, one entry point per shape.
pub struct Pxwindow {}

impl Pxwindow {
    /// Builds the plan of a Hann window (`0.5 - 0.5 cos(pi r)`) of length
    /// `len`; rejects exactly `len == 0`.
    pub fn hann(len: usize) -> (r: Result<WindowPlan, WindowError>)
        ensures
            r is Ok <==> len >= 1,
            r matches Ok(p) ==> crate::plan::is_plan_for(p, WindowShape::Hann, len as int),
            r matches Err(e) ==> e == WindowError::InvalidLength,
    {
        WindowPlan::new(WindowShape::Hann, len)
    }

    /// Builds the plan of a Hamming window (`0.54 - 0.46 cos(pi r)`) of
    /// length `len`; rejects exactly `len == 0`.
    pub fn hamming(len: usize) -> (r: Result<WindowPlan, WindowError>)
        ensures
            r is Ok <==> len >= 1,
            r matches Ok(p) ==> crate::plan::is_plan_for(p, WindowShape::Hamming, len as int),
            r matches Err(e) ==> e == WindowError::InvalidLength,
    {
        WindowPlan::new(WindowShape::Hamming, len)
    }

    /// Builds the plan of a Blackman window
    /// (`0.42 - 0.5 cos(pi r) + 0.08 cos(2 pi r)`) of length `len`; rejects
    /// exactly `len == 0`.
    pub fn blackman(len: usize) -> (r: Result<WindowPlan, WindowError>)
        ensures
            r is Ok <==> len >= 1,
            r matches Ok(p) ==> crate::plan::is_plan_for(p, WindowShape::Blackman, len as int),
            r matches Err(e) ==> e == WindowError::InvalidLength,
    {
        WindowPlan::new(WindowShape::Blackman, len)
    }
}

} // verus!
