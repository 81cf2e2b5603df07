//! The analytic coverage evaluator: the signed contribution of one quadratic
//! Bezier segment to a pixel's coverage.
//!
//! The curve arrives already translated into the pixel-local frame, so the
//! pixel's scanline is the line `y = 0`. The evaluator finds where the curve
//! crosses that line, converts each crossing's x-coordinate into a coverage
//! fraction through a linear anti-aliasing ramp, and signs the two roots
//! oppositely so that closed contours accumulate a winding count. An optional
//! refinement pass repeats the whole accumulation on the quarter-turn-rotated
//! curve, catching edges nearly parallel to the scanline that the primary
//! pass under-samples.

use vstd::prelude::*;
use crate::curve::{Curve, curve_in_eval_bounds, rotate, s_rotated};
use crate::curve::{s_ax, s_ay, s_bx, s_by, s_cx, s_cy, s_x_at};
use crate::fixed::{HALF, INV_LIMIT, SCALE};
use crate::fixed::{clamp_i128, isqrt_u128, s_abs, s_clamp, s_floor_sqrt, s_tdiv, tdiv_i128};

verus! {

/// Sentinel for a missing root; it fails the `0 <= t < SCALE` validity test.
pub const NO_ROOT: i64 = -1;

/// Largest magnitude the x-coordinate at a valid root can have.
pub const X_LIMIT: i64 = 1099511627776;

/// The curve lies strictly on one side of the scanline: no crossing possible.
pub open spec fn s_rejected(c: Curve) -> bool {
    (c.p0.y > 0 && c.p1.y > 0 && c.p2.y > 0) || (c.p0.y < 0 && c.p1.y < 0 && c.p2.y < 0)
}

/// Radicand of the simplified abc formula for `a.y*t^2 - 2*b.y*t + c.y = 0`.
pub open spec fn s_radicand(c: Curve) -> int {
    s_by(c) * s_by(c) - s_ay(c) * s_cy(c)
}

/// A genuinely quadratic curve whose radicand admits no real crossing (or an
/// exact tangency): the evaluation stops with zero before either pass.
pub open spec fn s_no_crossing(c: Curve) -> bool {
    s_ay(c) != 0 && s_radicand(c) <= 0
}

/// The scaled crossing parameters `(t0, t1)` of the curve with the scanline,
/// `NO_ROOT` where a slot has none. A genuinely quadratic curve (`a.y != 0`)
/// uses the simplified abc formula, with a non-positive radicand (no real
/// crossing, or exact tangency) yielding no roots; a curve degenerate in y
/// (`a.y == 0`: one fixed-point ulp, about 1.5e-5 of a unit, is the smallest
/// nonzero magnitude, so this is the linearity threshold) uses the linear
/// crossing directly, assigned to the slot matching its direction so the
/// winding sign stays correct. The threshold is absolute, not scaled to the
/// curve's extent: for very large coordinate magnitudes it is a known
/// precision limit.
pub open spec fn s_roots(c: Curve) -> (int, int) {
    if s_ay(c) != 0 {
        if s_radicand(c) <= 0 {
            (NO_ROOT as int, NO_ROOT as int)
        } else {
            let s = s_floor_sqrt(s_radicand(c));
            (
                s_tdiv((s_by(c) - s) * SCALE, s_ay(c)),
                s_tdiv((s_by(c) + s) * SCALE, s_ay(c)),
            )
        }
    } else {
        if c.p0.y == c.p2.y {
            (NO_ROOT as int, NO_ROOT as int)
        } else {
            let t = s_tdiv(s_cy(c) * SCALE, c.p0.y - c.p2.y);
            if c.p0.y < c.p2.y {
                (NO_ROOT as int, t)
            } else {
                (t, NO_ROOT as int)
            }
        }
    }
}

/// A root participates only within the parametric range of the segment;
/// `t == SCALE` (the curve's end point) is excluded so that the shared end
/// point of two joined segments is not counted twice.
pub open spec fn s_valid(t: int) -> bool {
    0 <= t < SCALE
}

/// Linear anti-aliasing ramp: a signed offset from the crossing becomes a
/// coverage fraction in `[0, SCALE]`, centered at `HALF` on the crossing.
pub open spec fn s_ramp(x: int, inv: int) -> int {
    s_clamp(s_tdiv(x * inv, SCALE as int) + HALF, 0, SCALE as int)
}

/// Signed coverage of one pass: the first root enters the filled region
/// (positive), the second leaves it (negative).
pub open spec fn s_pass_x(c: Curve, inv_x: int) -> int {
    let (t0, t1) = s_roots(c);
    (if s_valid(t0) {
        s_ramp(s_x_at(c, t0), inv_x)
    } else {
        0
    }) - (if s_valid(t1) {
        s_ramp(s_x_at(c, t1), inv_x)
    } else {
        0
    })
}

/// Signed coverage of the rotated refinement pass: the same accumulation as
/// the primary pass, applied to the quarter-turn-rotated curve
/// (`(x, y) -> (y, -x)`) with the derivative's other component. The crossings
/// are found anew against the rotated frame's scanline — the original frame's
/// vertical axis — which is what catches edges nearly parallel to the primary
/// scanline.
pub open spec fn s_pass_y(c: Curve, inv_y: int) -> int {
    s_pass_x(s_rotated(c), inv_y)
}

/// The signed coverage delta of one curve: zero for a curve strictly on one
/// side of the scanline or a quadratic without a real crossing, otherwise the
/// primary pass plus, when the rotated supersampling refinement is enabled,
/// the rotated pass.
pub open spec fn s_delta(c: Curve, inv: crate::curve::Point, supersample: bool) -> int {
    if s_rejected(c) {
        0
    } else if s_no_crossing(c) {
        0
    } else {
        s_pass_x(c, inv.x as int) + if supersample {
            s_pass_y(c, inv.y as int)
        } else {
            0
        }
    }
}

/// Find the scaled crossing parameters of a pixel-local curve with the
/// scanline, exactly as `s_roots` states them; `None` when the curve is
/// genuinely quadratic and its radicand admits no real crossing.
fn find_roots(c: &Curve) -> (r: Option<(i64, i64)>)
    requires
        curve_in_eval_bounds(*c),
    ensures
        r is Some <==> !s_no_crossing(*c),
        r matches Some(t) ==> (t.0 as int, t.1 as int) == s_roots(*c),
{
    let ay: i64 = c.p0.y - 2 * c.p1.y + c.p2.y;
    let by: i64 = c.p0.y - c.p1.y;
    let cy: i64 = c.p0.y;
    if ay != 0 {
        let ayi: i128 = ay as i128;
        let byi: i128 = by as i128;
        let cyi: i128 = cy as i128;
        proof {
            assert(-0x40000000000000000 <= byi * byi <= 0x40000000000000000
                && -0x40000000000000000 <= ayi * cyi <= 0x40000000000000000)
                by (nonlinear_arith)
                requires
                    -0x200000000 <= byi <= 0x200000000,
                    -0x400000000 <= ayi <= 0x400000000,
                    -0x100000000 <= cyi <= 0x100000000,
            ;
        }
        let radicand: i128 = byi * byi - ayi * cyi;
        if radicand <= 0 {
            return None;
        }
        let s: u128 = isqrt_u128(radicand as u128);
        proof {
            let sg: int = s as int;
            assert(sg * sg <= radicand);
            assert(sg <= 0x400000000) by (nonlinear_arith)
                requires
                    0 <= sg,
                    sg * sg < 0x100000000000000000,
            ;
        }
        let si: i128 = s as i128;
        let scl: i128 = SCALE as i128;
        proof {
            assert(-0x8000000000000 <= (byi - si) * scl <= 0x8000000000000
                && -0x8000000000000 <= (byi + si) * scl <= 0x8000000000000) by (nonlinear_arith)
                requires
                    -0x200000000 <= byi <= 0x200000000,
                    0 <= si <= 0x400000000,
                    scl == 0x10000,
            ;
        }
        let n0: i128 = (byi - si) * scl;
        let n1: i128 = (byi + si) * scl;
        let q0: i128 = tdiv_i128(n0, ayi);
        let q1: i128 = tdiv_i128(n1, ayi);
        Some((q0 as i64, q1 as i64))
    } else {
        if cy != c.p2.y {
            let denom: i64 = c.p0.y - c.p2.y;
            let cyi: i128 = cy as i128;
            let scl: i128 = SCALE as i128;
            proof {
                assert(-0x10000000000000 <= cyi * scl <= 0x10000000000000) by (nonlinear_arith)
                    requires
                        -0x200000000 <= cyi <= 0x200000000,
                        scl == 0x10000,
                ;
            }
            let q: i128 = tdiv_i128(cyi * scl, denom as i128);
            let t: i64 = q as i64;
            if c.p0.y < c.p2.y {
                Some((NO_ROOT, t))
            } else {
                Some((t, NO_ROOT))
            }
        } else {
            Some((NO_ROOT, NO_ROOT))
        }
    }
}

/// The curve's coordinate (for the coefficients of one axis) at a valid
/// scaled parameter, exactly as `s_x_at` states it.
fn coord_at(a: i64, b: i64, cc: i64, t: i64) -> (r: i128)
    requires
        0 <= t < SCALE,
        -0x400000000 <= a <= 0x400000000,
        -0x400000000 <= b <= 0x400000000,
        -0x400000000 <= cc <= 0x400000000,
    ensures
        r == s_tdiv(a * t * t - 2 * b * t * SCALE + cc * SCALE * SCALE, SCALE * SCALE),
        s_abs(r as int) <= X_LIMIT,
{
    let ai: i128 = a as i128;
    let bi: i128 = b as i128;
    let ci: i128 = cc as i128;
    let ti: i128 = t as i128;
    let sc: i128 = SCALE as i128;
    proof {
        assert(-0x40000000000000 <= ai * ti <= 0x40000000000000 && -0x400000000000000000
            <= ai * ti * ti <= 0x400000000000000000 && -0x80000000000000 <= 2 * bi * ti
            <= 0x80000000000000 && -0x800000000000000000000 <= 2 * bi * ti * sc
            <= 0x800000000000000000000) by (nonlinear_arith)
            requires
                -0x400000000 <= ai <= 0x400000000,
                -0x400000000 <= bi <= 0x400000000,
                0 <= ti < 0x10000,
                sc == 0x10000,
        ;
    }
    let num: i128 = ai * ti * ti - 2 * bi * ti * sc + ci * sc * sc;
    let r: i128 = tdiv_i128(num, sc * sc);
    proof {
        crate::fixed::lemma_tdiv_magnitude(num as int, (sc * sc) as int, X_LIMIT as int);
    }
    r
}

/// Linear anti-aliasing ramp on machine integers, exactly `s_ramp`.
fn ramp(x: i128, inv: i64) -> (r: i64)
    requires
        s_abs(x as int) <= X_LIMIT,
        s_abs(inv as int) <= INV_LIMIT,
    ensures
        r == s_ramp(x as int, inv as int),
        0 <= r <= SCALE,
{
    let invi: i128 = inv as i128;
    proof {
        assert(-0x100000000000000000000000 <= x * invi <= 0x100000000000000000000000)
            by (nonlinear_arith)
            requires
                -0x10000000000 <= x <= 0x10000000000,
                -0x1000000000000 <= invi <= 0x1000000000000,
        ;
    }
    let p: i128 = x * invi;
    let q: i128 = tdiv_i128(p, SCALE as i128);
    let v: i128 = clamp_i128(q + (HALF as i128), 0, SCALE as i128);
    v as i64
}

/// One pass of the crossing accumulation: each root in the segment's
/// parametric range adds (first slot) or subtracts (second slot) the
/// anti-aliased ramp of the curve's x-coordinate there, exactly `s_pass_x`.
fn accumulate_pass(c: &Curve, t0: i64, t1: i64, inv: i64) -> (alpha: i64)
    requires
        curve_in_eval_bounds(*c),
        (t0 as int, t1 as int) == s_roots(*c),
        s_abs(inv as int) <= INV_LIMIT,
    ensures
        alpha == s_pass_x(*c, inv as int),
        -SCALE <= alpha <= SCALE,
{
    let ax: i64 = c.p0.x - 2 * c.p1.x + c.p2.x;
    let bx: i64 = c.p0.x - c.p1.x;
    let cx: i64 = c.p0.x;
    let mut alpha: i64 = 0;
    if 0 <= t0 && t0 < SCALE {
        let x0: i128 = coord_at(ax, bx, cx, t0);
        alpha = alpha + ramp(x0, inv);
    }
    if 0 <= t1 && t1 < SCALE {
        let x1: i128 = coord_at(ax, bx, cx, t1);
        alpha = alpha - ramp(x1, inv);
    }
    alpha
}

/// Signed coverage delta of one pixel-local curve: the core per-curve entry
/// point of the evaluator. A curve strictly above or below the scanline is
/// rejected without root finding; a non-positive radicand (no real crossing,
/// or exact tangency) contributes zero; otherwise the primary pass
/// accumulates the scanline crossings, and the rotated refinement pass, when
/// enabled, re-finds the crossings on the quarter-turn-rotated curve and
/// accumulates them with the derivative's other component.
pub fn evaluate(c: &Curve, inv_diameter: crate::curve::Point, supersample: bool) -> (r: i64)
    requires
        curve_in_eval_bounds(*c),
        s_abs(inv_diameter.x as int) <= INV_LIMIT,
        s_abs(inv_diameter.y as int) <= INV_LIMIT,
    ensures
        r == s_delta(*c, inv_diameter, supersample),
        -2 * SCALE <= r <= 2 * SCALE,
        s_rejected(*c) ==> r == 0,
        s_ay(*c) != 0 && s_radicand(*c) <= 0 ==> r == 0,
{
    if (c.p0.y > 0 && c.p1.y > 0 && c.p2.y > 0) || (c.p0.y < 0 && c.p1.y < 0 && c.p2.y < 0) {
        return 0;
    }
    let (t0, t1): (i64, i64) = match find_roots(c) {
        Some(t) => t,
        None => {
            return 0;
        },
    };
    let mut alpha: i64 = accumulate_pass(c, t0, t1, inv_diameter.x);
    if supersample {
        let rc: Curve = rotate(c);
        let (r0, r1): (i64, i64) = match find_roots(&rc) {
            Some(t) => t,
            None => (NO_ROOT, NO_ROOT),
        };
        let rotated: i64 = accumulate_pass(&rc, r0, r1, inv_diameter.y);
        assert(rotated == s_pass_y(*c, inv_diameter.y as int));
        alpha = alpha + rotated;
    }
    alpha
}

} // verus!
