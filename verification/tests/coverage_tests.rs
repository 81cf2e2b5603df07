use gpu_font_rendering::curve::{Curve, Point};
use gpu_font_rendering::eval::evaluate;
use gpu_font_rendering::fixed::{HALF, SCALE};

fn pt(x: i64, y: i64) -> Point {
    Point { x, y }
}

fn curve(p0: (i64, i64), p1: (i64, i64), p2: (i64, i64)) -> Curve {
    Curve { p0: pt(p0.0, p0.1), p1: pt(p1.0, p1.1), p2: pt(p2.0, p2.1) }
}

/// The unit bump from the origin to (1, 0) peaking at (0.5, 0.5), translated
/// so the pixel at (0.5, 0.1) is the origin.
fn bump_at_inside_pixel() -> Curve {
    curve((-32768, -6554), (0, 26214), (32768, -6554))
}

const INV_ONE: Point = Point { x: 65536, y: 65536 };

#[test]
fn trivial_reject_all_above() {
    let c = curve((0, 655), (32768, 33423), (65536, 655));
    assert_eq!(evaluate(&c, INV_ONE, true), 0);
    assert_eq!(evaluate(&c, INV_ONE, false), 0);
}

#[test]
fn trivial_reject_all_below() {
    let c = curve((0, -655), (32768, -33423), (65536, -655));
    assert_eq!(evaluate(&c, INV_ONE, true), 0);
    assert_eq!(evaluate(&c, INV_ONE, false), 0);
}

#[test]
fn tangent_curve_zero_radicand_contributes_zero() {
    // a.y = 65536, b.y = 32768, c.y = 16384: radicand is exactly zero.
    let c = curve((0, 16384), (32768, -16384), (65536, 16384));
    assert_eq!(evaluate(&c, INV_ONE, false), 0);
    assert_eq!(evaluate(&c, INV_ONE, true), 0);
}

#[test]
fn bump_inside_gives_near_full_coverage() {
    let c = bump_at_inside_pixel();
    // Both crossings lie left resp. right of the pixel; the winding sum is
    // positive and close to full coverage for a one-pixel window, and the
    // refinement pass raises it further (the compositor clamps the total).
    assert_eq!(evaluate(&c, INV_ONE, false), 50762);
    assert_eq!(evaluate(&c, INV_ONE, true), 93360);
}

#[test]
fn bump_below_baseline_gives_zero() {
    let c = curve((-32768, 6554), (0, 39322), (32768, 6554));
    assert_eq!(evaluate(&c, INV_ONE, false), 0);
}

#[test]
fn evaluate_is_idempotent() {
    let c = bump_at_inside_pixel();
    let first = evaluate(&c, INV_ONE, true);
    let second = evaluate(&c, INV_ONE, true);
    assert_eq!(first, second);
}

#[test]
fn reflection_flips_contribution_sign() {
    let c = bump_at_inside_pixel();
    let mirrored = curve((-32768, 6554), (0, -26214), (32768, 6554));
    let d = evaluate(&c, INV_ONE, false);
    let md = evaluate(&mirrored, INV_ONE, false);
    assert_eq!(d, 50762);
    assert_eq!(md, -50762);
}

#[test]
fn reflection_flips_sign_with_refinement_enabled() {
    // A steep segment down the vertical axis: its rotated frame sees no
    // crossing in range, so the refinement pass keeps the antisymmetry.
    let c = curve((0, 65539), (0, 3), (0, -65533));
    let mirrored = curve((0, -65539), (0, -3), (0, 65533));
    assert_eq!(evaluate(&c, INV_ONE, true), 32768);
    assert_eq!(evaluate(&mirrored, INV_ONE, true), -32768);
}

#[test]
fn degenerate_collinear_curve_uses_linear_crossing() {
    // a.y == 0: p1.y is the average of p0.y and p2.y. The crossing at t = 0.5
    // has x = 0.5, one half-unit right of the pixel: a fully covered, rising
    // (negative winding) crossing.
    let c = curve((0, -16384), (32768, 0), (65536, 16384));
    assert_eq!(evaluate(&c, INV_ONE, false), -65536);
}

#[test]
fn vertical_line_exact_ramp_value() {
    // A vertical segment at x = 0.2 crossing upward: the ramp is
    // 0.2 * 1 + 0.5 = 0.7 of full coverage, subtracted.
    let c = curve((13107, -32768), (13107, 0), (13107, 32768));
    let expected = -(13107 + HALF);
    assert_eq!(evaluate(&c, INV_ONE, false), expected);
    assert_eq!(expected, -45875);
}

#[test]
fn supersampling_leaves_vertical_edge_alone() {
    // A vertical segment is fully resolved by the primary pass; in the
    // rotated frame it runs parallel to the scanline and adds nothing.
    let c = curve((13107, -32768), (13107, 0), (13107, 32768));
    assert_eq!(evaluate(&c, INV_ONE, false), -45875);
    assert_eq!(evaluate(&c, INV_ONE, true), -45875);
}

#[test]
fn supersampling_resolves_near_horizontal_edge() {
    // A shallow descending diagonal through the origin: the primary pass sees
    // only the half-covered crossing at the pixel, while the refinement pass
    // re-finds the crossing in the rotated frame and completes the coverage.
    let c = curve((-32768, 3277), (0, 0), (32768, -3277));
    assert_eq!(evaluate(&c, INV_ONE, false), HALF);
    assert_eq!(evaluate(&c, INV_ONE, true), 65536);
}

#[test]
fn coverage_saturates_as_window_shrinks() {
    let c = bump_at_inside_pixel();
    let mut last = 0;
    for inv in [65536i64, 1 << 20, 1 << 30, 1 << 40] {
        let alpha = evaluate(&c, Point { x: inv, y: inv }, false);
        assert!(alpha >= last);
        last = alpha;
    }
    assert_eq!(last, SCALE);
}
