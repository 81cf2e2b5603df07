//! Resolution-independent glyph rendering core: glyphs are sets of quadratic
//! Bezier curve segments, and a per-pixel analytic coverage test computes how
//! much of a pixel lies inside the glyph, yielding an anti-aliased alpha value.
//!
//! All coordinates and coverage values are fixed-point integers scaled by
//! `fixed::SCALE`; the GPU-facing adapter converts to floating point at the
//! boundary.

pub mod curve;
pub mod eval;
pub mod fixed;
pub mod glyph;
pub mod laws;

use vstd::prelude::*;

verus! {

} // verus!
