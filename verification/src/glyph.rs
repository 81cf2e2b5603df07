//! Glyph tables and the per-pixel compositor.
//!
//! A glyph is a contiguous `(start, count)` range into a shared flat store of
//! curve segments. The compositor folds the evaluator's signed deltas over a
//! glyph's range and clamps the winding-style sum once, at the end, into a
//! usable alpha value in `[0, SCALE]`.

use vstd::prelude::*;
use crate::curve::{Curve, Point, curve_in_bounds, point_in_bounds, s_translated, translate};
use crate::eval::{evaluate, s_delta};
use crate::fixed::{COORD_LIMIT, INV_LIMIT, SCALE};
use crate::fixed::{clamp_i128, lemma_tdiv_magnitude, s_abs, s_clamp, s_tdiv, tdiv_i128};

verus! {

/// A glyph: a contiguous range of curves in the shared curve store.
#[derive(Clone, Copy, PartialEq, Eq, Structural, Debug)]
pub struct Glyph {
    pub start: u32,
    pub count: u32,
}

/// Tunable evaluation settings: the anti-aliasing window multiplier
/// (fixed-point, `SCALE` is 1.0, must be positive) and whether the rotated
/// supersampling refinement pass runs.
#[derive(Clone, Copy, PartialEq, Eq, Structural, Debug)]
pub struct Config {
    pub aa_window: i64,
    pub supersample: bool,
}

impl Default for Config {
    /// A window of one pixel, with the refinement pass enabled.
    fn default() -> (c: Config)
        ensures
            c.aa_window == SCALE,
            c.supersample == true,
    {
        Config { aa_window: SCALE, supersample: true }
    }
}

/// The read-only data the per-pixel evaluation works over: the flat curve
/// store and the glyph index into it.
pub struct FontTables {
    pub curves: Vec<Curve>,
    pub glyphs: Vec<Glyph>,
}

/// The glyph's range lies inside a curve store of length `n`.
pub open spec fn glyph_in_range(g: Glyph, n: int) -> bool {
    g.start + g.count <= n
}

impl FontTables {
    /// Every glyph's range is inside the store and every curve's coordinates
    /// fit the evaluator's budget.
    pub open spec fn wf(self) -> bool {
        &&& forall|i: int|
            0 <= i < self.glyphs@.len() ==> glyph_in_range(
                self.glyphs@[i],
                self.curves@.len() as int,
            )
        &&& forall|i: int| 0 <= i < self.curves@.len() ==> curve_in_bounds(self.curves@[i])
    }

    /// Validate and adopt tables prepared by the font-loading collaborator.
    /// Succeeds exactly when every glyph range is inside the store and every
    /// curve is within the coordinate budget.
    pub fn new(curves: Vec<Curve>, glyphs: Vec<Glyph>) -> (r: Option<FontTables>)
        ensures
            r is Some <==> ((forall|i: int|
                0 <= i < glyphs@.len() ==> glyph_in_range(glyphs@[i], curves@.len() as int))
                && (forall|i: int| 0 <= i < curves@.len() ==> curve_in_bounds(curves@[i]))),
            r is Some ==> r->Some_0.wf() && r->Some_0.curves@ == curves@ && r->Some_0.glyphs@
                == glyphs@,
    {
        let mut i: usize = 0;
        while i < glyphs.len()
            invariant
                i <= glyphs@.len(),
                forall|j: int|
                    0 <= j < i ==> glyph_in_range(glyphs@[j], curves@.len() as int),
            decreases glyphs@.len() - i,
        {
            let g: Glyph = glyphs[i];
            if !((g.start as usize) <= curves.len() && (g.count as usize) <= curves.len() - (
            g.start as usize)) {
                return None;
            }
            i = i + 1;
        }
        let mut k: usize = 0;
        while k < curves.len()
            invariant
                k <= curves@.len(),
                forall|j: int| 0 <= j < k ==> curve_in_bounds(curves@[j]),
            decreases curves@.len() - k,
        {
            let c: Curve = curves[k];
            if !(curve_bounded(&c)) {
                return None;
            }
            k = k + 1;
        }
        Some(FontTables { curves, glyphs })
    }
}

/// Whether a curve's coordinates fit the coordinate budget.
pub fn curve_bounded(c: &Curve) -> (b: bool)
    ensures
        b == curve_in_bounds(*c),
{
    point_bounded(&c.p0) && point_bounded(&c.p1) && point_bounded(&c.p2)
}

/// Whether a point's coordinates fit the coordinate budget.
pub fn point_bounded(p: &Point) -> (b: bool)
    ensures
        b == point_in_bounds(*p),
{
    -COORD_LIMIT <= p.x && p.x <= COORD_LIMIT && -COORD_LIMIT <= p.y && p.y <= COORD_LIMIT
}

/// Unclamped winding sum of the first `count` curves of the glyph's range,
/// each translated into the pixel-local frame: a pure fold with identity 0.
pub open spec fn s_glyph_sum(
    curves: Seq<Curve>,
    start: int,
    count: int,
    uv: Point,
    inv: Point,
    supersample: bool,
) -> int
    decreases count,
{
    if count <= 0 {
        0
    } else {
        s_glyph_sum(curves, start, count - 1, uv, inv, supersample) + s_delta(
            s_translated(curves[start + count - 1], uv),
            inv,
            supersample,
        )
    }
}

/// The composited per-pixel alpha of a glyph: its winding sum clamped once
/// into `[0, SCALE]`.
pub open spec fn s_composite(
    curves: Seq<Curve>,
    g: Glyph,
    uv: Point,
    inv: Point,
    supersample: bool,
) -> int {
    s_clamp(s_glyph_sum(curves, g.start as int, g.count as int, uv, inv, supersample), 0, SCALE as int)
}

/// Sum the evaluator's signed deltas over all curves of the glyph's range
/// and clamp the total once into `[0, SCALE]`.
pub fn composite(
    tables: &FontTables,
    g: Glyph,
    uv: Point,
    inv_diameter: Point,
    config: &Config,
) -> (alpha: i64)
    requires
        tables.wf(),
        glyph_in_range(g, tables.curves@.len() as int),
        point_in_bounds(uv),
        s_abs(inv_diameter.x as int) <= INV_LIMIT,
        s_abs(inv_diameter.y as int) <= INV_LIMIT,
    ensures
        alpha == s_composite(tables.curves@, g, uv, inv_diameter, config.supersample),
        0 <= alpha <= SCALE,
{
    let start: usize = g.start as usize;
    let count: usize = g.count as usize;
    let n: usize = tables.curves.len();
    let mut sum: i64 = 0;
    let mut i: usize = 0;
    while i < count
        invariant
            i <= count,
            start == g.start,
            count == g.count,
            n == tables.curves@.len(),
            tables.wf(),
            glyph_in_range(g, tables.curves@.len() as int),
            point_in_bounds(uv),
            s_abs(inv_diameter.x as int) <= INV_LIMIT,
            s_abs(inv_diameter.y as int) <= INV_LIMIT,
            start + count <= n,
            sum == s_glyph_sum(
                tables.curves@,
                start as int,
                i as int,
                uv,
                inv_diameter,
                config.supersample,
            ),
            -131072 * i <= sum <= 131072 * i,
        decreases count - i,
    {
        let c: Curve = tables.curves[start + i];
        let local: Curve = translate(&c, uv);
        let d: i64 = evaluate(&local, inv_diameter, config.supersample);
        sum = sum + d;
        i = i + 1;
    }
    let v: i128 = clamp_i128(sum as i128, 0, SCALE as i128);
    v as i64
}

/// Per-pixel entry point for the rendering pipeline: the composited alpha of
/// the glyph at `glyph_index`, for a pixel at `uv` in glyph-local fixed-point
/// coordinates.
pub fn coverage(
    tables: &FontTables,
    glyph_index: usize,
    uv: Point,
    inv_diameter: Point,
    config: &Config,
) -> (alpha: i64)
    requires
        tables.wf(),
        glyph_index < tables.glyphs@.len(),
        point_in_bounds(uv),
        s_abs(inv_diameter.x as int) <= INV_LIMIT,
        s_abs(inv_diameter.y as int) <= INV_LIMIT,
    ensures
        alpha == s_composite(
            tables.curves@,
            tables.glyphs@[glyph_index as int],
            uv,
            inv_diameter,
            config.supersample,
        ),
        0 <= alpha <= SCALE,
{
    let g: Glyph = tables.glyphs[glyph_index];
    composite(tables, g, uv, inv_diameter, config)
}

/// Inverse anti-aliasing diameter, one component: the fixed-point value of
/// `1 / (aa_window * fwidth)`, truncated.
pub open spec fn s_inv_component(fwidth: int, aa_window: int) -> int {
    s_tdiv(SCALE * SCALE * SCALE, aa_window * fwidth)
}

/// Convert the screen-space derivative of the local coordinate (`fwidth`,
/// both components positive) and the configured anti-aliasing window
/// multiplier into the inverse diameter the evaluator's ramp uses.
pub fn inverse_diameter(fwidth: Point, config: &Config) -> (inv: Point)
    requires
        0 < config.aa_window <= COORD_LIMIT,
        0 < fwidth.x <= COORD_LIMIT,
        0 < fwidth.y <= COORD_LIMIT,
    ensures
        inv.x == s_inv_component(fwidth.x as int, config.aa_window as int),
        inv.y == s_inv_component(fwidth.y as int, config.aa_window as int),
        0 <= inv.x <= INV_LIMIT,
        0 <= inv.y <= INV_LIMIT,
{
    let x: i64 = inv_component(fwidth.x, config.aa_window);
    let y: i64 = inv_component(fwidth.y, config.aa_window);
    Point { x, y }
}

/// One component of the inverse diameter.
fn inv_component(fwidth: i64, aa_window: i64) -> (inv: i64)
    requires
        0 < aa_window <= COORD_LIMIT,
        0 < fwidth <= COORD_LIMIT,
    ensures
        inv == s_inv_component(fwidth as int, aa_window as int),
        0 <= inv <= INV_LIMIT,
{
    let wi: i128 = aa_window as i128;
    let fi: i128 = fwidth as i128;
    proof {
        assert(1 <= wi * fi <= 0x4000000000000000000000000000000) by (nonlinear_arith)
            requires
                1 <= wi <= 0x80000000,
                1 <= fi <= 0x80000000,
        ;
    }
    let denom: i128 = wi * fi;
    let numer: i128 = 281474976710656;
    assert(numer == SCALE * SCALE * SCALE);
    let q: i128 = tdiv_i128(numer, denom);
    proof {
        assert(s_abs(denom as int) * INV_LIMIT >= numer) by (nonlinear_arith)
            requires
                1 <= denom,
                INV_LIMIT == 0x1000000000000,
                numer == 0x1000000000000,
        ;
        lemma_tdiv_magnitude(numer as int, denom as int, INV_LIMIT as int);
    }
    q as i64
}

/// Built-in demonstration tables: a single glyph made of one curve, an
/// upward bump from the origin to (1, 0) peaking at (0.5, 0.5).
pub fn load_font_data() -> (r: (Vec<Glyph>, Vec<Curve>))
    ensures
        r.0@.len() == 1,
        r.0@[0] == (Glyph { start: 0, count: 1 }),
        r.1@.len() == 1,
        r.1@[0] == (Curve {
            p0: Point { x: 0, y: 0 },
            p1: Point { x: 32768, y: 32768 },
            p2: Point { x: 65536, y: 0 },
        }),
{
    let mut glyphs: Vec<Glyph> = Vec::new();
    let mut curves: Vec<Curve> = Vec::new();
    glyphs.push(Glyph { start: 0, count: 1 });
    curves.push(
        Curve {
            p0: Point { x: 0, y: 0 },
            p1: Point { x: 32768, y: 32768 },
            p2: Point { x: 65536, y: 0 },
        },
    );
    (glyphs, curves)
}

} // verus!
