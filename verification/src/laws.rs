//! Properties of the coverage evaluator that hold for every input, proved
//! once here rather than checked case by case.

use vstd::prelude::*;
use crate::curve::{Curve, Point, curve_in_bounds, curve_in_eval_bounds, point_in_bounds};
use crate::curve::{s_ax, s_ay, s_bx, s_by, s_cx, s_cy, s_rotated};
use crate::curve::{s_reflected, s_reflected_point, s_translated, s_x_at};
use crate::eval::{s_delta, s_no_crossing, s_pass_x, s_pass_y, s_radicand, s_ramp, s_rejected};
use crate::eval::{s_roots, s_valid};
use crate::glyph::{Glyph, s_composite, s_glyph_sum};
use crate::fixed::{HALF, SCALE};
use crate::fixed::{lemma_tdiv_neg_both, lemma_tdiv_neg_dividend, lemma_tdiv_remainder};
use crate::fixed::{s_abs, s_floor_sqrt, s_tdiv};

verus! {

/// Reflecting a curve across the scanline swaps the two crossing slots: the
/// root that entered the filled region now leaves it and vice versa.
pub proof fn lemma_reflected_roots_swap(c: Curve)
    requires
        curve_in_eval_bounds(c),
    ensures
        s_roots(s_reflected(c)).0 == s_roots(c).1,
        s_roots(s_reflected(c)).1 == s_roots(c).0,
{
    let m = s_reflected(c);
    let ay: int = s_ay(c);
    let by: int = s_by(c);
    let cy: int = s_cy(c);
    assert(s_ay(m) == -ay);
    assert(s_by(m) == -by);
    assert(s_cy(m) == -cy);
    if ay != 0 {
        assert((-by) * (-by) - (-ay) * (-cy) == by * by - ay * cy) by (nonlinear_arith);
        assert(s_radicand(m) == s_radicand(c));
        if s_radicand(c) > 0 {
            let s: int = s_floor_sqrt(s_radicand(c));
            assert((-by - s) * SCALE == -((by + s) * SCALE)) by (nonlinear_arith);
            assert((-by + s) * SCALE == -((by - s) * SCALE)) by (nonlinear_arith);
            lemma_tdiv_neg_both((by + s) * SCALE, ay);
            lemma_tdiv_neg_both((by - s) * SCALE, ay);
        }
    } else {
        if c.p0.y != c.p2.y {
            assert((-cy) * SCALE == -(cy * SCALE)) by (nonlinear_arith);
            lemma_tdiv_neg_both(cy * SCALE, c.p0.y - c.p2.y);
        }
    }
}

/// Negating every x-coefficient of a curve negates its x-coordinate at every
/// parameter: truncating division is odd in its dividend.
proof fn lemma_x_at_negated(d: Curve, f: Curve, t: int)
    requires
        s_ax(f) == -s_ax(d),
        s_bx(f) == -s_bx(d),
        s_cx(f) == -s_cx(d),
    ensures
        s_x_at(f, t) == -s_x_at(d, t),
{
    let a: int = s_ax(d);
    let b: int = s_bx(d);
    let cc: int = s_cx(d);
    assert((-a) * t * t - 2 * (-b) * t * SCALE + (-cc) * SCALE * SCALE == -(a * t * t - 2 * b * t
        * SCALE + cc * SCALE * SCALE)) by (nonlinear_arith);
    assert(SCALE * SCALE == 0x100000000) by (nonlinear_arith)
        requires
            SCALE == 65536,
    ;
    lemma_tdiv_neg_dividend(a * t * t - 2 * b * t * SCALE + cc * SCALE * SCALE, SCALE * SCALE);
}

/// Negating the offset mirrors the anti-aliasing ramp around half coverage.
proof fn lemma_ramp_negate(x: int, inv: int)
    ensures
        s_ramp(-x, inv) == SCALE - s_ramp(x, inv),
{
    assert((-x) * inv == -(x * inv)) by (nonlinear_arith);
    lemma_tdiv_neg_dividend(x * inv, SCALE as int);
}

/// Reflecting a curve and the test point across the scanline (negating every
/// y-coordinate) leaves the magnitude of the curve's coverage contribution
/// unchanged and flips its sign: the crossing that entered the filled region
/// now leaves it. With the supersampling refinement enabled the law needs one
/// condition more: the rotated pass's crossings lie on the vertical axis,
/// which reflection leaves in place instead of swapping, and it measures each
/// crossing's height, which reflection mirrors around half coverage; the two
/// mirrored ramps cancel into an exact sign flip only when the rotated frame
/// sees its two root slots valid together or not at all. A rotated frame with
/// exactly one crossing in range breaks the antisymmetry.
pub proof fn lemma_reflection_antisymmetry(c: Curve, inv: Point, supersample: bool)
    requires
        curve_in_eval_bounds(c),
        supersample ==> s_valid(s_roots(s_rotated(c)).0) == s_valid(s_roots(s_rotated(c)).1),
    ensures
        s_delta(s_reflected(c), inv, supersample) == -s_delta(c, inv, supersample),
{
    let m = s_reflected(c);
    let ay: int = s_ay(c);
    let by: int = s_by(c);
    let cy: int = s_cy(c);
    assert(s_ay(m) == -ay && s_by(m) == -by && s_cy(m) == -cy);
    assert((-by) * (-by) - (-ay) * (-cy) == by * by - ay * cy) by (nonlinear_arith);
    assert(s_radicand(m) == s_radicand(c));
    assert(s_rejected(m) <==> s_rejected(c));
    assert(s_no_crossing(m) <==> s_no_crossing(c));
    if !s_rejected(c) && !s_no_crossing(c) {
        lemma_reflected_roots_swap(c);
        let t0: int = s_roots(c).0;
        let t1: int = s_roots(c).1;
        assert(s_x_at(m, t0) == s_x_at(c, t0));
        assert(s_x_at(m, t1) == s_x_at(c, t1));
        assert(s_pass_x(m, inv.x as int) == -s_pass_x(c, inv.x as int));
        if supersample {
            let d = s_rotated(c);
            let f = s_rotated(m);
            assert(s_ay(f) == s_ay(d) && s_by(f) == s_by(d) && s_cy(f) == s_cy(d) && f.p0.y
                == d.p0.y && f.p2.y == d.p2.y);
            assert(s_roots(f) == s_roots(d));
            assert(s_ax(f) == -s_ax(d) && s_bx(f) == -s_bx(d) && s_cx(f) == -s_cx(d));
            let r0: int = s_roots(d).0;
            let r1: int = s_roots(d).1;
            if s_valid(r0) && s_valid(r1) {
                lemma_x_at_negated(d, f, r0);
                lemma_x_at_negated(d, f, r1);
                lemma_ramp_negate(s_x_at(d, r0), inv.y as int);
                lemma_ramp_negate(s_x_at(d, r1), inv.y as int);
            }
            assert(s_pass_y(m, inv.y as int) == -s_pass_y(c, inv.y as int));
        }
    }
}

/// Translating into the pixel-local frame commutes with reflection across the
/// scanline: reflecting the stored curve and the test point, then translating,
/// is the reflection of the translated curve.
pub proof fn lemma_reflect_translate_commutes(c: Curve, uv: Point)
    requires
        curve_in_bounds(c),
        point_in_bounds(uv),
    ensures
        s_translated(s_reflected(c), s_reflected_point(uv)) == s_reflected(s_translated(c, uv)),
{
}

/// Reflecting a stored curve and the test point across the scanline leaves
/// the magnitude of the curve's coverage contribution at that point unchanged
/// and flips its sign (for the refinement pass's condition see
/// `lemma_reflection_antisymmetry`).
pub proof fn lemma_reflection_antisymmetry_at_pixel(
    c: Curve,
    uv: Point,
    inv: Point,
    supersample: bool,
)
    requires
        curve_in_bounds(c),
        point_in_bounds(uv),
        supersample ==> s_valid(s_roots(s_rotated(s_translated(c, uv))).0) == s_valid(
            s_roots(s_rotated(s_translated(c, uv))).1,
        ),
    ensures
        s_delta(s_translated(s_reflected(c), s_reflected_point(uv)), inv, supersample) == -s_delta(
            s_translated(c, uv),
            inv,
            supersample,
        ),
{
    lemma_reflect_translate_commutes(c, uv);
    lemma_reflection_antisymmetry(s_translated(c, uv), inv, supersample);
}

/// The degenerate branch solves the equation the quadratic branch degenerates
/// to: when the quadratic coefficient `a.y` vanishes, the crossing equation
/// becomes `-2*b.y*t + c.y == 0`, its denominator `2*b.y` is exactly the
/// branch's `p0.y - p2.y`, the branch's root is the scaled, truncated root of
/// that equation, and plugging the root back in leaves a residue smaller than
/// one truncation step.
pub proof fn lemma_linear_branch_matches_quadratic(c: Curve)
    requires
        s_ay(c) == 0,
        c.p0.y != c.p2.y,
    ensures
        c.p0.y - c.p2.y == 2 * s_by(c),
        ({
            let t = if c.p0.y < c.p2.y {
                s_roots(c).1
            } else {
                s_roots(c).0
            };
            t == s_tdiv(s_cy(c) * SCALE, 2 * s_by(c)) && s_abs(
                s_cy(c) * SCALE - 2 * s_by(c) * t,
            ) < s_abs(2 * s_by(c))
        }),
{
    let t: int = if c.p0.y < c.p2.y {
        s_roots(c).1
    } else {
        s_roots(c).0
    };
    assert(t == s_tdiv(s_cy(c) * SCALE, c.p0.y - c.p2.y));
    lemma_tdiv_remainder(s_cy(c) * SCALE, 2 * s_by(c));
}

/// The winding sum over a range every curve of which contributes zero — as
/// every curve does at a pixel whose scanline and vertical axis it never
/// crosses — is zero.
proof fn lemma_glyph_sum_of_zeros(
    curves: Seq<Curve>,
    start: int,
    count: int,
    uv: Point,
    inv: Point,
    supersample: bool,
)
    requires
        forall|i: int|
            start <= i < start + count ==> s_delta(
                s_translated(curves[i], uv),
                inv,
                supersample,
            ) == 0,
    ensures
        s_glyph_sum(curves, start, count, uv, inv, supersample) == 0,
    decreases count,
{
    if count > 0 {
        lemma_glyph_sum_of_zeros(curves, start, count - 1, uv, inv, supersample);
    }
}

/// A pixel none of whose glyph's curves contributes — every curve strictly on
/// one side of its scanline, without a real crossing, or with its crossings
/// ramped to cancellation — composites to exactly zero coverage. This is the
/// outside half of the winding classification for a point away from every
/// curve of a closed loop.
pub proof fn lemma_zero_contributions_zero_coverage(
    curves: Seq<Curve>,
    g: Glyph,
    uv: Point,
    inv: Point,
    supersample: bool,
)
    requires
        forall|i: int|
            g.start <= i < g.start + g.count ==> s_delta(
                s_translated(curves[i], uv),
                inv,
                supersample,
            ) == 0,
    ensures
        s_composite(curves, g, uv, inv, supersample) == 0,
{
    lemma_glyph_sum_of_zeros(curves, g.start as int, g.count as int, uv, inv, supersample);
}

/// The compositor turns the signed winding sum into coverage by one clamp: a
/// sum of at least one full unit — a consistently wound loop enclosing the
/// pixel with saturated crossings — composites to exactly full coverage, a
/// non-positive sum to exactly zero, and everything composites into the unit
/// range.
pub proof fn lemma_composite_classifies_winding(
    curves: Seq<Curve>,
    g: Glyph,
    uv: Point,
    inv: Point,
    supersample: bool,
)
    ensures
        s_glyph_sum(curves, g.start as int, g.count as int, uv, inv, supersample) >= SCALE
            ==> s_composite(curves, g, uv, inv, supersample) == SCALE,
        s_glyph_sum(curves, g.start as int, g.count as int, uv, inv, supersample) <= 0
            ==> s_composite(curves, g, uv, inv, supersample) == 0,
        0 <= s_composite(curves, g, uv, inv, supersample) <= SCALE,
{
}

/// The evaluator is a pure function of the curve, the inverse diameter and
/// the refinement toggle: two evaluations of the same input are bit-identical.
pub proof fn lemma_evaluate_deterministic(
    c: Curve,
    inv: Point,
    supersample: bool,
    r1: i64,
    r2: i64,
)
    requires
        r1 == s_delta(c, inv, supersample),
        r2 == s_delta(c, inv, supersample),
    ensures
        r1 == r2,
{
}

/// As the anti-aliasing window shrinks the inverse diameter grows, and each
/// crossing's ramp saturates: once the scaled product of the crossing's
/// x-offset and the inverse diameter reaches half a unit, the contribution is
/// exactly full coverage for a crossing to the pixel's right (the pixel is
/// inside) and exactly zero for one to its left (outside).
pub proof fn lemma_ramp_saturates(x: int, inv: int)
    requires
        0 <= inv,
    ensures
        x > 0 && x * inv >= HALF * SCALE ==> s_ramp(x, inv) == SCALE,
        x < 0 && x * inv <= -(HALF * SCALE) ==> s_ramp(x, inv) == 0,
{
    let p: int = x * inv;
    assert(HALF * SCALE == 2147483648) by (nonlinear_arith)
        requires
            HALF == 32768,
            SCALE == 65536,
    ;
    if x > 0 && p >= HALF * SCALE {
        vstd::arithmetic::div_mod::lemma_div_is_ordered(2147483648, p, SCALE as int);
        assert(2147483648int / (SCALE as int) == HALF) by (nonlinear_arith)
            requires
                HALF == 32768,
                SCALE == 65536,
        ;
        assert(s_tdiv(p, SCALE as int) >= HALF);
    }
    if x < 0 && p <= -(HALF * SCALE) {
        vstd::arithmetic::div_mod::lemma_div_is_ordered(2147483648, -p, SCALE as int);
        assert(2147483648int / (SCALE as int) == HALF) by (nonlinear_arith)
            requires
                HALF == 32768,
                SCALE == 65536,
        ;
        assert(s_tdiv(p, SCALE as int) <= -HALF);
    }
}

} // verus!
