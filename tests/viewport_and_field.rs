use orbits::field::{escapes_within, render_field, render_row};
use orbits::fixed::{FixedComplex, BOUND, ONE};
use orbits::orbit::{calc_orbits, orbit_segments, ORBIT_CAP};
use orbits::viewport::ComplexBBox;

fn fc(re: i64, im: i64) -> FixedComplex {
    FixedComplex { re, im }
}

fn bbox(llre: i64, llim: i64, urre: i64, urim: i64) -> ComplexBBox {
    ComplexBBox { ll: fc(llre, llim), ur: fc(urre, urim) }
}

fn default_view() -> ComplexBBox {
    bbox(-3 * ONE / 2, -ONE, ONE / 2, ONE)
}

#[test]
fn cardioid_pixel_is_interior() {
    let view = bbox(-5 * ONE / 2, -ONE, ONE / 2, ONE);
    let c = view.screen_to_complex(50, 50, 100, 100);
    assert_eq!(c, fc(-ONE, 0));
    assert!(!escapes_within(&c, 50));
    let rows = render_field(&view, 100, 100, 50);
    assert_eq!(rows.len(), 100);
    assert_eq!(&rows[50][200..204], &[0, 0, 0, 255]);
}

#[test]
fn corner_pixel_escapes_and_is_white() {
    let view = bbox(-5 * ONE / 2, -ONE, ONE / 2, ONE);
    let rows = render_field(&view, 100, 100, 50);
    // pixel (0, 0) is -2.5 + 1i, outside the radius at once
    assert_eq!(&rows[0][0..4], &[255, 255, 255, 255]);
    assert_eq!(rows[0].len(), 400);
}

#[test]
fn render_rows_follow_their_index() {
    let view = default_view();
    let rows = render_field(&view, 16, 12, 30);
    assert_eq!(rows.len(), 12);
    for (y, row) in rows.iter().enumerate() {
        assert_eq!(*row, render_row(&view, y as u32, 16, 12, 30));
    }
    assert_ne!(rows[0], rows[6]);
}

#[test]
fn empty_surface_renders_nothing() {
    let view = default_view();
    assert!(render_field(&view, 0, 10, 50).is_empty());
    assert!(render_field(&view, 10, 0, 50).is_empty());
}

#[test]
fn zoom_in_about_origin() {
    let view = bbox(-3 * ONE / 2, -ONE, ONE / 2, ONE);
    let z = view.zoom(fc(0, 0), 1, 2).unwrap();
    assert_eq!(z, bbox(-3 * ONE / 4, -ONE / 2, ONE / 4, ONE / 2));
}

#[test]
fn zoom_out_about_point() {
    let view = bbox(-ONE, -ONE, ONE, ONE);
    let z = view.zoom(fc(ONE / 2, 0), 2, 1).unwrap();
    assert_eq!(z, bbox(-5 * ONE / 2, -2 * ONE, 3 * ONE / 2, 2 * ONE));
}

#[test]
fn zoom_composes() {
    let view = default_view();
    let p = fc(ONE / 3, -ONE / 7);
    let twice = view.zoom(p, 1, 3).unwrap().zoom(p, 2, 5).unwrap();
    let once = view.zoom(p, 2, 15).unwrap();
    for (a, b) in [
        (once.ll.re, twice.ll.re),
        (once.ll.im, twice.ll.im),
        (once.ur.re, twice.ur.re),
        (once.ur.im, twice.ur.im),
    ] {
        assert!(b <= a && (a - b) * 5 < 2 + 5);
    }
}

#[test]
fn zoom_rejects_degenerate_and_out_of_range() {
    let tiny = bbox(0, 0, 1, 1);
    assert_eq!(tiny.zoom(fc(0, 0), 1, 2), None);
    let wide = bbox(-BOUND / 2 - 1, -ONE, BOUND / 2, ONE);
    assert_eq!(wide.zoom(fc(0, 0), 2, 1), None);
}

#[test]
fn screen_round_trip_within_one_pixel() {
    let view = bbox(-5 * ONE / 2, -ONE, ONE / 2, ONE);
    for &(x, y, w, h) in &[(0, 0, 100, 100), (99, 99, 100, 100), (37, 12, 800, 600), (799, 599, 800, 600)] {
        let c = view.screen_to_complex(x, y, w, h);
        let (px, py) = view.complex_to_screen(c, w, h);
        assert!(x - 1 <= px && px <= x, "{} {}", x, px);
        assert!(y - 1 <= py && py <= y, "{} {}", y, py);
    }
}

#[test]
fn screen_top_row_is_upper_bound() {
    let view = default_view();
    let c = view.screen_to_complex(0, 0, 800, 600);
    assert_eq!(c, fc(-3 * ONE / 2, ONE));
    let (x, y) = view.complex_to_screen(fc(ONE / 2, -ONE), 800, 600);
    assert_eq!((x, y), (800, 600));
}

#[test]
fn complex_to_screen_clamps_far_points() {
    let view = bbox(-1, -1, 1, 1);
    let (x, y) = view.complex_to_screen(fc(BOUND, -BOUND), 1000, 1000);
    assert_eq!((x, y), (i32::MAX, i32::MAX));
}

#[test]
fn drag_delta_converts_pixels() {
    let view = default_view();
    let d = view.complex_deltas(200, 200, 10, 0).unwrap();
    assert_eq!(d, fc(ONE / 10, 0));
    let d = view.complex_deltas(200, 200, 0, 20).unwrap();
    assert_eq!(d, fc(0, -ONE / 5));
    assert_eq!(view.complex_deltas(1, 1, i32::MAX, 0), None);
}

#[test]
fn shifted_region_moves_both_corners() {
    let view = default_view();
    let moved = view.shifted_by(fc(ONE / 10, 0)).unwrap();
    assert_eq!(moved, bbox(-3 * ONE / 2 - ONE / 10, -ONE, ONE / 2 - ONE / 10, ONE));
    assert_eq!(bbox(-BOUND, 0, 0, 1).shifted_by(fc(1, 0)), None);
}

#[test]
fn escape_is_monotonic_in_budget() {
    // 0.26 lies just right of the cusp and escapes slowly
    let c = fc(26 * ONE / 100, 0);
    let first = (1..200u32).find(|&n| escapes_within(&c, n)).unwrap();
    assert!(first > 2);
    assert!(!escapes_within(&c, first - 1));
    for n in first..first + 40 {
        assert!(escapes_within(&c, n));
    }
}

#[test]
fn zero_budget_escapes_nothing() {
    assert!(!escapes_within(&fc(2 * ONE, 2 * ONE), 0));
    assert!(escapes_within(&fc(2 * ONE, 2 * ONE), 1));
}

#[test]
fn orbit_of_far_point_has_three_entries() {
    let c = fc(2 * ONE, 2 * ONE);
    let o = calc_orbits(c);
    assert_eq!(o, vec![fc(0, 0), c, c]);
}

#[test]
fn orbit_of_interior_point_runs_to_cap() {
    let c = fc(-ONE, 0);
    let o = calc_orbits(c);
    assert_eq!(o.len(), ORBIT_CAP as usize + 2);
    assert_eq!(o[0], fc(0, 0));
    assert_eq!(o[1], c);
    assert_eq!(o[2], c);
    assert_eq!(o[3], fc(0, 0));
    assert_eq!(o[4], fc(-ONE, 0));
}

#[test]
fn orbit_ends_with_escaping_iterate() {
    let c = fc(ONE / 2, ONE / 2);
    let o = calc_orbits(c);
    assert!(o.len() >= 3 && o.len() <= ORBIT_CAP as usize + 2);
    let last = o[o.len() - 1];
    let r = last.re as f64 / ONE as f64;
    let i = last.im as f64 / ONE as f64;
    assert!(r * r + i * i > 4.0);
    for z in &o[2..o.len() - 1] {
        let r = z.re as f64 / ONE as f64;
        let i = z.im as f64 / ONE as f64;
        assert!(r * r + i * i <= 4.0 + 1e-9);
    }
}

#[test]
fn orbit_segments_join_neighbours() {
    let view = bbox(-2 * ONE, -2 * ONE, 2 * ONE, 2 * ONE);
    let orbit = vec![fc(0, 0), fc(ONE, ONE), fc(-ONE, 0)];
    let segs = orbit_segments(&view, &orbit, 400, 400);
    assert_eq!(segs, vec![((200, 200), (300, 100)), ((300, 100), (100, 200))]);
    assert!(orbit_segments(&view, &vec![fc(0, 0)], 400, 400).is_empty());
    assert!(orbit_segments(&view, &vec![], 400, 400).is_empty());
}
