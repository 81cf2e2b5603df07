//! Quadratic Bezier curve segments and the coefficient form used by the
//! coverage evaluator.
//!
//! A curve is three control points `p0, p1, p2` in glyph-local fixed-point
//! coordinates. The evaluator works on the "abc" coefficients
//! `a = p0 - 2*p1 + p2`, `b = p0 - p1`, `c = p0`, so that the curve's
//! y-coordinate at parameter `t` (with `t` scaled by `SCALE`) is the exact
//! root target of `a.y*t^2 - 2*b.y*t + c.y`.

use vstd::prelude::*;
use crate::fixed::{COORD_LIMIT, SCALE};
use crate::fixed::s_abs;
use crate::fixed::s_tdiv;

verus! {

/// A 2D point or vector in fixed-point coordinates.
#[derive(Clone, Copy, PartialEq, Eq, Structural, Debug)]
pub struct Point {
    pub x: i64,
    pub y: i64,
}

/// A quadratic Bezier segment given by its three control points.
#[derive(Clone, Copy, PartialEq, Eq, Structural, Debug)]
pub struct Curve {
    pub p0: Point,
    pub p1: Point,
    pub p2: Point,
}

/// A point fits in the coordinate budget the evaluator's arithmetic needs.
pub open spec fn point_in_bounds(p: Point) -> bool {
    s_abs(p.x as int) <= COORD_LIMIT && s_abs(p.y as int) <= COORD_LIMIT
}

/// All three control points fit in the coordinate budget.
pub open spec fn curve_in_bounds(c: Curve) -> bool {
    point_in_bounds(c.p0) && point_in_bounds(c.p1) && point_in_bounds(c.p2)
}

/// Bound on a curve already translated into the pixel-local frame: the
/// difference of two in-budget values, so twice the coordinate budget.
pub open spec fn point_in_eval_bounds(p: Point) -> bool {
    s_abs(p.x as int) <= 2 * COORD_LIMIT && s_abs(p.y as int) <= 2 * COORD_LIMIT
}

/// All three control points of a pixel-local curve are in evaluator range.
pub open spec fn curve_in_eval_bounds(c: Curve) -> bool {
    point_in_eval_bounds(c.p0) && point_in_eval_bounds(c.p1) && point_in_eval_bounds(c.p2)
}

/// Quadratic coefficient of the curve's x-coordinate.
pub open spec fn s_ax(c: Curve) -> int {
    c.p0.x - 2 * c.p1.x + c.p2.x
}

/// Quadratic coefficient of the curve's y-coordinate.
pub open spec fn s_ay(c: Curve) -> int {
    c.p0.y - 2 * c.p1.y + c.p2.y
}

/// Linear coefficient of the curve's x-coordinate.
pub open spec fn s_bx(c: Curve) -> int {
    c.p0.x - c.p1.x
}

/// Linear coefficient of the curve's y-coordinate.
pub open spec fn s_by(c: Curve) -> int {
    c.p0.y - c.p1.y
}

/// Constant coefficient of the curve's x-coordinate.
pub open spec fn s_cx(c: Curve) -> int {
    c.p0.x as int
}

/// Constant coefficient of the curve's y-coordinate.
pub open spec fn s_cy(c: Curve) -> int {
    c.p0.y as int
}

/// The curve's x-coordinate at scaled parameter `t`: the fixed-point value of
/// `a.x*(t/S)^2 - 2*b.x*(t/S) + c.x`, truncated toward zero.
pub open spec fn s_x_at(c: Curve, t: int) -> int {
    s_tdiv(s_ax(c) * t * t - 2 * s_bx(c) * t * SCALE + s_cx(c) * SCALE * SCALE, SCALE * SCALE)
}

/// The curve's y-coordinate at scaled parameter `t`, truncated toward zero.
pub open spec fn s_y_at(c: Curve, t: int) -> int {
    s_tdiv(s_ay(c) * t * t - 2 * s_by(c) * t * SCALE + s_cy(c) * SCALE * SCALE, SCALE * SCALE)
}

/// The curve translated so the given pixel position becomes the origin.
pub open spec fn s_translated(c: Curve, uv: Point) -> Curve {
    Curve {
        p0: Point { x: (c.p0.x - uv.x) as i64, y: (c.p0.y - uv.y) as i64 },
        p1: Point { x: (c.p1.x - uv.x) as i64, y: (c.p1.y - uv.y) as i64 },
        p2: Point { x: (c.p2.x - uv.x) as i64, y: (c.p2.y - uv.y) as i64 },
    }
}

/// A point reflected across the scanline: its y-coordinate negated.
pub open spec fn s_reflected_point(p: Point) -> Point {
    Point { x: p.x, y: (-p.y) as i64 }
}

/// The curve reflected across the scanline: every y-coordinate negated.
pub open spec fn s_reflected(c: Curve) -> Curve {
    Curve {
        p0: s_reflected_point(c.p0),
        p1: s_reflected_point(c.p1),
        p2: s_reflected_point(c.p2),
    }
}

/// A point rotated a quarter turn: `(x, y) -> (y, -x)`.
pub open spec fn s_rotated_point(p: Point) -> Point {
    Point { x: p.y, y: (-p.x) as i64 }
}

/// The curve rotated a quarter turn, for the supersampling refinement pass:
/// the rotated frame's scanline is the original frame's vertical axis.
pub open spec fn s_rotated(c: Curve) -> Curve {
    Curve {
        p0: s_rotated_point(c.p0),
        p1: s_rotated_point(c.p1),
        p2: s_rotated_point(c.p2),
    }
}

/// Rotate a pixel-local curve a quarter turn.
pub fn rotate(c: &Curve) -> (r: Curve)
    requires
        curve_in_eval_bounds(*c),
    ensures
        r == s_rotated(*c),
        curve_in_eval_bounds(r),
{
    Curve {
        p0: Point { x: c.p0.y, y: -c.p0.x },
        p1: Point { x: c.p1.y, y: -c.p1.x },
        p2: Point { x: c.p2.y, y: -c.p2.x },
    }
}

/// Translate a curve into the pixel-local frame where the pixel is the origin.
pub fn translate(c: &Curve, uv: Point) -> (r: Curve)
    requires
        point_in_bounds(uv),
        curve_in_bounds(*c),
    ensures
        r == s_translated(*c, uv),
        curve_in_eval_bounds(r),
{
    Curve {
        p0: Point { x: c.p0.x - uv.x, y: c.p0.y - uv.y },
        p1: Point { x: c.p1.x - uv.x, y: c.p1.y - uv.y },
        p2: Point { x: c.p2.x - uv.x, y: c.p2.y - uv.y },
    }
}

} // verus!
