//! The viewed rectangle of the complex plane and its mapping to pixels.
use crate::fixed::{
    div_floor, div_trunc, lemma_quotient_range, trunc_div, within_bound, FixedComplex, BOUND,
};
use vstd::arithmetic::div_mod::{lemma_fundamental_div_mod, lemma_mod_bound};
use vstd::prelude::*;

verus! {

/// A rectangle of the complex plane given by its lower-left and
/// upper-right corners.
#[derive(Clone, Copy, PartialEq, Eq, Structural, Debug)]
pub struct ComplexBBox {
    pub ll: FixedComplex,
    pub ur: FixedComplex,
}

/// Corners that form a positively oriented box within the coordinate range.
pub open spec fn corners_wf(v: ((int, int), (int, int))) -> bool {
    &&& within_bound(v.0)
    &&& within_bound(v.1)
    &&& v.0.0 < v.1.0
    &&& v.0.1 < v.1.1
}

impl View for ComplexBBox {
    type V = ((int, int), (int, int));

    open spec fn view(&self) -> ((int, int), (int, int)) {
        (self.ll@, self.ur@)
    }
}

/// The complex point shown at pixel `(x, y)` of a `w` by `h` surface: real
/// parts grow to the right, imaginary parts shrink downward.
pub open spec fn screen_point(v: ((int, int), (int, int)), x: int, y: int, w: int, h: int) -> (int, int) {
    (v.0.0 + (x * (v.1.0 - v.0.0)) / w, v.1.1 - (y * (v.1.1 - v.0.1)) / h)
}

/// `v` clamped to the range of `i32`.
pub open spec fn clamp_i32(v: int) -> int {
    if v < i32::MIN {
        i32::MIN as int
    } else if v > i32::MAX {
        i32::MAX as int
    } else {
        v
    }
}

/// The pixel at which the complex point `c` is shown, rounded toward zero
/// and clamped to `i32`.
pub open spec fn pixel_of(v: ((int, int), (int, int)), c: (int, int), w: int, h: int) -> (int, int) {
    (
        clamp_i32(trunc_div((c.0 - v.0.0) * w, v.1.0 - v.0.0)),
        clamp_i32(trunc_div((v.1.1 - c.1) * h, v.1.1 - v.0.1)),
    )
}

/// The complex displacement of a drag by `(dx, dy)` pixels, rounded toward
/// zero; a downward drag lowers the imaginary part.
pub open spec fn drag_delta(v: ((int, int), (int, int)), w: int, h: int, dx: int, dy: int) -> (int, int) {
    (trunc_div(dx * (v.1.0 - v.0.0), w), trunc_div(-dy * (v.1.1 - v.0.1), h))
}

/// A displacement that a region can be shifted by.
pub open spec fn shift_in_range(d: (int, int)) -> bool {
    -2 * BOUND <= d.0 <= 2 * BOUND && -2 * BOUND <= d.1 <= 2 * BOUND
}

/// Both corners moved by `-d`.
pub open spec fn shifted(v: ((int, int), (int, int)), d: (int, int)) -> ((int, int), (int, int)) {
    ((v.0.0 - d.0, v.0.1 - d.1), (v.1.0 - d.0, v.1.1 - d.1))
}

/// One coordinate scaled by `n / d` about the fixed coordinate `p`, rounded
/// down.
pub open spec fn zoom_axis(p: int, v: int, n: int, d: int) -> int {
    p + ((v - p) * n) / d
}

/// Both corners scaled by `n / d` about the fixed point `p`.
pub open spec fn zoomed(v: ((int, int), (int, int)), p: (int, int), n: int, d: int) -> ((int, int), (int, int)) {
    (
        (zoom_axis(p.0, v.0.0, n, d), zoom_axis(p.1, v.0.1, n, d)),
        (zoom_axis(p.0, v.1.0, n, d), zoom_axis(p.1, v.1.1, n, d)),
    )
}

/// Within the coordinate range, `0 <= x < w` gives `0 <= x * s / w < s`.
proof fn lemma_scaled_offset(x: int, w: int, s: int)
    requires
        0 <= x < w,
        0 < s,
    ensures
        0 <= (x * s) / w < s,
        0 <= x * s < w * s,
{
    assert(0 <= x * s < w * s) by (nonlinear_arith)
        requires
            0 <= x < w,
            0 < s,
    ;
    assert(0 <= (x * s) / w < s) by (nonlinear_arith)
        requires
            0 <= x * s < w * s,
            0 < w,
    ;
}

impl ComplexBBox {
    /// Well formed: a positively oriented box within the coordinate range.
    pub open spec fn wf(&self) -> bool {
        corners_wf(self@)
    }

    /// The complex point at pixel `(x, y)` of a `w` by `h` surface.
    pub fn screen_to_complex(&self, x: i32, y: i32, w: i32, h: i32) -> (r: FixedComplex)
        requires
            self.wf(),
            0 <= x < w,
            0 <= y < h,
        ensures
            r@ == screen_point(self@, x as int, y as int, w as int, h as int),
            self.ll.re <= r.re < self.ur.re,
            self.ll.im < r.im <= self.ur.im,
    {
        let width = (self.ur.re as i128) - (self.ll.re as i128);
        let height = (self.ur.im as i128) - (self.ll.im as i128);
        proof {
            lemma_scaled_offset(x as int, w as int, width as int);
            lemma_scaled_offset(y as int, h as int, height as int);
            assert(x * width <= 0x8000_0000 * 0x1000_0000_0000_0000) by (nonlinear_arith)
                requires
                    0 <= x <= 0x8000_0000,
                    0 <= width <= 0x1000_0000_0000_0000,
            ;
            assert(y * height <= 0x8000_0000 * 0x1000_0000_0000_0000) by (nonlinear_arith)
                requires
                    0 <= y <= 0x8000_0000,
                    0 <= height <= 0x1000_0000_0000_0000,
            ;
        }
        let dre = div_floor((x as i128) * width, w as i128);
        let dim = div_floor((y as i128) * height, h as i128);
        FixedComplex { re: ((self.ll.re as i128) + dre) as i64, im: ((self.ur.im as i128) - dim) as i64 }
    }

    /// The pixel of a `w` by `h` surface at which `c` is shown.
    pub fn complex_to_screen(&self, c: FixedComplex, w: i32, h: i32) -> (r: (i32, i32))
        requires
            self.wf(),
        ensures
            (r.0 as int, r.1 as int) == pixel_of(self@, c@, w as int, h as int),
    {
        let width = (self.ur.re as i128) - (self.ll.re as i128);
        let height = (self.ur.im as i128) - (self.ll.im as i128);
        let offx = (c.re as i128) - (self.ll.re as i128);
        let offy = (self.ur.im as i128) - (c.im as i128);
        proof {
            assert(-0x1_0000_0000_0000_0000 * 0x8000_0000 <= offx * w <= 0x1_0000_0000_0000_0000 * 0x8000_0000) by (nonlinear_arith)
                requires
                    -0x1_0000_0000_0000_0000 <= offx <= 0x1_0000_0000_0000_0000,
                    -0x8000_0000 <= w <= 0x8000_0000,
            ;
            assert(-0x1_0000_0000_0000_0000 * 0x8000_0000 <= offy * h <= 0x1_0000_0000_0000_0000 * 0x8000_0000) by (nonlinear_arith)
                requires
                    -0x1_0000_0000_0000_0000 <= offy <= 0x1_0000_0000_0000_0000,
                    -0x8000_0000 <= h <= 0x8000_0000,
            ;
        }
        let px = div_trunc(offx * (w as i128), width);
        let py = div_trunc(offy * (h as i128), height);
        (clamp_to_i32(px), clamp_to_i32(py))
    }

    /// The complex displacement of a drag by `(dx, dy)` pixels on a `w` by
    /// `h` surface; `None` where it exceeds twice the coordinate range, so
    /// that no region shifted by it stays in range.
    pub fn complex_deltas(&self, w: i32, h: i32, dx: i32, dy: i32) -> (r: Option<FixedComplex>)
        requires
            self.wf(),
            w > 0,
            h > 0,
        ensures
            match r {
                Some(d) => d@ == drag_delta(self@, w as int, h as int, dx as int, dy as int),
                None => !shift_in_range(drag_delta(self@, w as int, h as int, dx as int, dy as int)),
            },
            r is Some ==> shift_in_range(r->0@),
    {
        let width = (self.ur.re as i128) - (self.ll.re as i128);
        let height = (self.ur.im as i128) - (self.ll.im as i128);
        let ndy = -(dy as i128);
        proof {
            assert(-0x1_0000_0000_0000_0000 * 0x8000_0000 <= dx * width <= 0x1_0000_0000_0000_0000 * 0x8000_0000) by (nonlinear_arith)
                requires
                    0 < width <= 0x1_0000_0000_0000_0000,
                    -0x8000_0000 <= dx <= 0x8000_0000,
            ;
            assert(-0x1_0000_0000_0000_0000 * 0x8000_0000 <= ndy * height <= 0x1_0000_0000_0000_0000 * 0x8000_0000) by (nonlinear_arith)
                requires
                    0 < height <= 0x1_0000_0000_0000_0000,
                    -0x8000_0000 <= ndy <= 0x8000_0000,
            ;
        }
        let re = div_trunc((dx as i128) * width, w as i128);
        let im = div_trunc(ndy * height, h as i128);
        let limit = 2 * (BOUND as i128);
        if -limit <= re && re <= limit && -limit <= im && im <= limit {
            Some(FixedComplex { re: re as i64, im: im as i64 })
        } else {
            None
        }
    }

    /// The region moved by `-d`; `None` where it would leave the coordinate
    /// range.
    pub fn shifted_by(&self, d: FixedComplex) -> (r: Option<ComplexBBox>)
        requires
            self.wf(),
            shift_in_range(d@),
        ensures
            match r {
                Some(b) => b@ == shifted(self@, d@) && b.wf(),
                None => !corners_wf(shifted(self@, d@)),
            },
    {
        let llre = (self.ll.re as i128) - (d.re as i128);
        let llim = (self.ll.im as i128) - (d.im as i128);
        let urre = (self.ur.re as i128) - (d.re as i128);
        let urim = (self.ur.im as i128) - (d.im as i128);
        make_region(llre, llim, urre, urim)
    }

    /// The region scaled by `num / den` about the fixed point `position`:
    /// each corner becomes `position + (corner - position) * num / den`. A
    /// ratio below one zooms in, above one zooms out. `None` where the result
    /// would be degenerate or leave the coordinate range.
    pub fn zoom(&self, position: FixedComplex, num: u64, den: u64) -> (r: Option<ComplexBBox>)
        requires
            self.wf(),
            within_bound(position@),
            num > 0,
            den > 0,
        ensures
            match r {
                Some(b) => b@ == zoomed(self@, position@, num as int, den as int) && b.wf(),
                None => !corners_wf(zoomed(self@, position@, num as int, den as int)),
            },
    {
        let llre = zoom_coord(position.re, self.ll.re, num, den);
        let llim = zoom_coord(position.im, self.ll.im, num, den);
        let urre = zoom_coord(position.re, self.ur.re, num, den);
        let urim = zoom_coord(position.im, self.ur.im, num, den);
        make_region(llre, llim, urre, urim)
    }
}

/// The region with the given corners, where they are well formed.
fn make_region(llre: i128, llim: i128, urre: i128, urim: i128) -> (r: Option<ComplexBBox>)
    ensures
        match r {
            Some(b) => b@ == ((llre as int, llim as int), (urre as int, urim as int)) && b.wf(),
            None => !corners_wf(((llre as int, llim as int), (urre as int, urim as int))),
        },
{
    let b = BOUND as i128;
    if -b <= llre && llre <= b && -b <= llim && llim <= b && -b <= urre && urre <= b && -b <= urim
        && urim <= b && llre < urre && llim < urim {
        Some(
            ComplexBBox {
                ll: FixedComplex { re: llre as i64, im: llim as i64 },
                ur: FixedComplex { re: urre as i64, im: urim as i64 },
            },
        )
    } else {
        None
    }
}

/// `p + (v - p) * num / den`, rounded down.
fn zoom_coord(p: i64, v: i64, num: u64, den: u64) -> (r: i128)
    requires
        -BOUND <= p <= BOUND,
        -BOUND <= v <= BOUND,
        den > 0,
    ensures
        r == zoom_axis(p as int, v as int, num as int, den as int),
{
    let off = (v as i128) - (p as i128);
    proof {
        assert(-0x1000_0000_0000_0000 * 0x1_0000_0000_0000_0000 <= off * num <= 0x1000_0000_0000_0000 * 0x1_0000_0000_0000_0000) by (nonlinear_arith)
            requires
                -0x1000_0000_0000_0000 <= off <= 0x1000_0000_0000_0000,
                0 <= num <= 0x1_0000_0000_0000_0000,
        ;
        lemma_quotient_range(off * num, den as int);
    }
    (p as i128) + div_floor(off * (num as i128), den as i128)
}

/// `v` clamped to the range of `i32`.
pub(crate) fn clamp_to_i32(v: i128) -> (r: i32)
    ensures
        r as int == clamp_i32(v as int),
{
    if v < i32::MIN as i128 {
        i32::MIN
    } else if v > i32::MAX as i128 {
        i32::MAX
    } else {
        v as i32
    }
}

/// Mapping a pixel column to the complex plane and back loses at most one
/// pixel, when each pixel spans at least one fixed-point unit.
proof fn lemma_axis_round_trip(x: int, w: int, s: int)
    requires
        0 <= x < w,
        w <= s,
    ensures
        x - 1 <= (((x * s) / w) * w) / s <= x,
{
    let q = (x * s) / w;
    let p = (q * w) / s;
    lemma_fundamental_div_mod(x * s, w);
    lemma_mod_bound(x * s, w);
    lemma_fundamental_div_mod(q * w, s);
    lemma_mod_bound(q * w, s);
    let r1 = (x * s) % w;
    let r2 = (q * w) % s;
    assert(x - 1 <= p <= x) by (nonlinear_arith)
        requires
            x * s == w * q + r1,
            0 <= r1 < w,
            q * w == s * p + r2,
            0 <= r2 < s,
            0 < w <= s,
    ;
}

/// For every pixel `(x, y)` of a `w` by `h` surface and every well-formed
/// region that gives each pixel at least one fixed-point unit, mapping the
/// pixel to the complex plane and back gives `(x, y)` within one pixel.
pub proof fn lemma_screen_round_trip(v: ((int, int), (int, int)), x: int, y: int, w: int, h: int)
    requires
        corners_wf(v),
        0 <= x < w <= i32::MAX,
        0 <= y < h <= i32::MAX,
        w <= v.1.0 - v.0.0,
        h <= v.1.1 - v.0.1,
    ensures
        x - 1 <= pixel_of(v, screen_point(v, x, y, w, h), w, h).0 <= x,
        y - 1 <= pixel_of(v, screen_point(v, x, y, w, h), w, h).1 <= y,
{
    let dw = v.1.0 - v.0.0;
    let dh = v.1.1 - v.0.1;
    lemma_axis_round_trip(x, w, dw);
    lemma_axis_round_trip(y, h, dh);
    lemma_scaled_offset(x, w, dw);
    lemma_scaled_offset(y, h, dh);
    let qx = (x * dw) / w;
    let qy = (y * dh) / h;
    assert(qx * w >= 0) by (nonlinear_arith)
        requires
            qx >= 0,
            w > 0,
    ;
    assert(qy * h >= 0) by (nonlinear_arith)
        requires
            qy >= 0,
            h > 0,
    ;
    assert(screen_point(v, x, y, w, h).0 - v.0.0 == qx);
    assert(v.1.1 - screen_point(v, x, y, w, h).1 == qy);
}

/// The two coordinates agree within the rounding of a zoom by `n / d`:
/// `b` lies below `a` by less than `n / d + 1` units.
pub open spec fn within_zoom_rounding(a: int, b: int, n: int, d: int) -> bool {
    b <= a && (a - b) * d < n + d
}

/// One coordinate: zooming by `n1 / d1` then by `n2 / d2` about the same
/// point agrees with one zoom by `(n1 * n2) / (d1 * d2)` up to rounding.
proof fn lemma_zoom_axis_compose(p: int, v: int, n1: int, d1: int, n2: int, d2: int)
    requires
        n1 > 0,
        d1 > 0,
        n2 > 0,
        d2 > 0,
    ensures
        within_zoom_rounding(
            zoom_axis(p, v, n1 * n2, d1 * d2),
            zoom_axis(p, zoom_axis(p, v, n1, d1), n2, d2),
            n2,
            d2,
        ),
{
    let u = v - p;
    let a = (u * n1) / d1;
    let b = (a * n2) / d2;
    let e = (u * (n1 * n2)) / (d1 * d2);
    lemma_fundamental_div_mod(u * n1, d1);
    lemma_mod_bound(u * n1, d1);
    lemma_fundamental_div_mod(a * n2, d2);
    lemma_mod_bound(a * n2, d2);
    assert(d1 * d2 > 0) by (nonlinear_arith)
        requires
            d1 > 0,
            d2 > 0,
    ;
    lemma_fundamental_div_mod(u * (n1 * n2), d1 * d2);
    lemma_mod_bound(u * (n1 * n2), d1 * d2);
    let r1 = (u * n1) % d1;
    let r2 = (a * n2) % d2;
    let r3 = (u * (n1 * n2)) % (d1 * d2);
    assert(u * (n1 * n2) == (u * n1) * n2) by (nonlinear_arith);
    assert((d1 * a + r1) * n2 == d1 * (a * n2) + r1 * n2) by (nonlinear_arith);
    assert(d1 * (d2 * b + r2) == (d1 * d2) * b + d1 * r2) by (nonlinear_arith);
    assert((d1 * d2) * e - (d1 * d2) * b == d1 * d2 * (e - b)) by (nonlinear_arith);
    assert(d1 * d2 * (e - b) == d1 * r2 + r1 * n2 - r3);
    assert(b <= e && (e - b) * d2 < n2 + d2) by (nonlinear_arith)
        requires
            d1 * d2 * (e - b) == d1 * r2 + r1 * n2 - r3,
            0 <= r1 < d1,
            0 <= r2 < d2,
            0 <= r3 < d1 * d2,
            n2 > 0,
            d1 > 0,
            d2 > 0,
    ;
    assert(zoom_axis(p, zoom_axis(p, v, n1, d1), n2, d2) == p + b);
}

/// Zooming by `n1 / d1` and then by `n2 / d2` about the same point gives the
/// region of a single zoom by `(n1 * n2) / (d1 * d2)`, each coordinate within
/// `n2 / d2 + 1` fixed-point units.
pub proof fn lemma_zoom_compose(
    v: ((int, int), (int, int)),
    p: (int, int),
    n1: int,
    d1: int,
    n2: int,
    d2: int,
)
    requires
        n1 > 0,
        d1 > 0,
        n2 > 0,
        d2 > 0,
    ensures
        ({
            let once = zoomed(v, p, n1 * n2, d1 * d2);
            let twice = zoomed(zoomed(v, p, n1, d1), p, n2, d2);
            &&& within_zoom_rounding(once.0.0, twice.0.0, n2, d2)
            &&& within_zoom_rounding(once.0.1, twice.0.1, n2, d2)
            &&& within_zoom_rounding(once.1.0, twice.1.0, n2, d2)
            &&& within_zoom_rounding(once.1.1, twice.1.1, n2, d2)
        }),
{
    lemma_zoom_axis_compose(p.0, v.0.0, n1, d1, n2, d2);
    lemma_zoom_axis_compose(p.1, v.0.1, n1, d1, n2, d2);
    lemma_zoom_axis_compose(p.0, v.1.0, n1, d1, n2, d2);
    lemma_zoom_axis_compose(p.1, v.1.1, n1, d1, n2, d2);
}

} // verus!
