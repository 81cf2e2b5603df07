use gpu_font_rendering::curve::{Curve, Point};
use gpu_font_rendering::glyph::{
    composite, coverage, inverse_diameter, load_font_data, Config, FontTables, Glyph,
};

fn pt(x: i64, y: i64) -> Point {
    Point { x, y }
}

fn curve(p0: (i64, i64), p1: (i64, i64), p2: (i64, i64)) -> Curve {
    Curve { p0: pt(p0.0, p0.1), p1: pt(p1.0, p1.1), p2: pt(p2.0, p2.1) }
}

/// The unit bump and a straight return segment: a closed, consistently wound
/// triangle-like loop.
fn triangle_tables() -> FontTables {
    let curves = vec![
        curve((0, 0), (32768, 32768), (65536, 0)),
        curve((65536, 0), (32768, 0), (0, 0)),
    ];
    let glyphs = vec![Glyph { start: 0, count: 2 }];
    FontTables::new(curves, glyphs).unwrap()
}

const INV_ONE: Point = Point { x: 65536, y: 65536 };
const INV_SHARP: Point = Point { x: 1 << 40, y: 1 << 40 };

#[test]
fn winding_loop_full_at_centroid() {
    let tables = triangle_tables();
    let cfg = Config { aa_window: 65536, supersample: false };
    let alpha = coverage(&tables, 0, pt(32768, 9830), INV_SHARP, &cfg);
    assert_eq!(alpha, 65536);
}

#[test]
fn winding_loop_zero_outside_bounding_box() {
    let tables = triangle_tables();
    let cfg = Config { aa_window: 65536, supersample: false };
    let alpha = coverage(&tables, 0, pt(196608, 196608), INV_SHARP, &cfg);
    assert_eq!(alpha, 0);
}

#[test]
fn winding_loop_soft_window_at_centroid() {
    let tables = triangle_tables();
    let cfg = Config { aa_window: 65536, supersample: false };
    assert_eq!(coverage(&tables, 0, pt(32768, 9830), INV_ONE, &cfg), 41448);
    let ss = Config { aa_window: 65536, supersample: true };
    assert_eq!(coverage(&tables, 0, pt(32768, 9830), INV_ONE, &ss), 65536);
}

#[test]
fn composite_clamps_into_unit_range() {
    let tables = triangle_tables();
    let cfg = Config { aa_window: 65536, supersample: true };
    for &(x, y) in
        &[(0i64, 0i64), (32768, 16384), (65536, 0), (-131072, 9830), (32768, -131072)]
    {
        let alpha = composite(&tables, Glyph { start: 0, count: 2 }, pt(x, y), INV_ONE, &cfg);
        assert!((0..=65536).contains(&alpha));
    }
}

#[test]
fn tables_validation_accepts_good_input() {
    let r = FontTables::new(
        vec![curve((0, 0), (32768, 32768), (65536, 0))],
        vec![Glyph { start: 0, count: 1 }],
    );
    assert!(r.is_some());
}

#[test]
fn tables_validation_rejects_range_past_store() {
    let r = FontTables::new(
        vec![curve((0, 0), (32768, 32768), (65536, 0))],
        vec![Glyph { start: 1, count: 1 }],
    );
    assert!(r.is_none());
}

#[test]
fn tables_validation_rejects_oversized_coordinate() {
    let r = FontTables::new(
        vec![curve((0, 0), (32768, 2147483649), (65536, 0))],
        vec![Glyph { start: 0, count: 1 }],
    );
    assert!(r.is_none());
}

#[test]
fn built_in_tables_hold_the_unit_bump() {
    let (glyphs, curves) = load_font_data();
    assert_eq!(glyphs.len(), 1);
    assert_eq!(glyphs[0], Glyph { start: 0, count: 1 });
    assert_eq!(curves.len(), 1);
    assert_eq!(curves[0], curve((0, 0), (32768, 32768), (65536, 0)));
}

#[test]
fn built_in_glyph_covers_inside_of_bump() {
    let (glyphs, curves) = load_font_data();
    let tables = FontTables::new(curves, glyphs).unwrap();
    let cfg = Config { aa_window: 65536, supersample: false };
    assert_eq!(coverage(&tables, 0, pt(32768, 6554), INV_ONE, &cfg), 50762);
    assert_eq!(coverage(&tables, 0, pt(32768, -6554), INV_ONE, &cfg), 0);
}

#[test]
fn inverse_diameter_exact_values() {
    let one = inverse_diameter(pt(65536, 65536), &Config { aa_window: 65536, supersample: true });
    assert_eq!((one.x, one.y), (65536, 65536));
    let wide =
        inverse_diameter(pt(65536, 32768), &Config { aa_window: 131072, supersample: true });
    assert_eq!((wide.x, wide.y), (32768, 65536));
}

#[test]
fn default_config_is_one_pixel_window_with_refinement() {
    let cfg = Config::default();
    assert_eq!(cfg.aa_window, 65536);
    assert!(cfg.supersample);
}
