//! Fixed-point complex numbers and the iteration rule `z -> z*z + c`.
//!
//! A real number `v` is held as the integer `v * 2^48`; products are
//! rounded toward negative infinity.
use vstd::arithmetic::div_mod::{lemma_div_is_ordered, lemma_div_multiples_vanish};
use vstd::prelude::*;

verus! {

/// The fixed-point value of 1.0, that is `2^48`.
pub const ONE: i64 = 281474976710656;

/// The largest magnitude that a coordinate of a viewed region may have
/// (1024.0 in fixed point, `2^58`).
pub const BOUND: i64 = 288230376151711744;

/// Bound on each component of a point that has not left the escape radius.
pub open spec fn small(z: (int, int)) -> bool {
    -3 * ONE <= z.0 <= 3 * ONE && -3 * ONE <= z.1 <= 3 * ONE
}

/// Each component lies within the coordinate range of a region.
pub open spec fn within_bound(z: (int, int)) -> bool {
    -BOUND <= z.0 <= BOUND && -BOUND <= z.1 <= BOUND
}

/// A complex number with fixed-point real and imaginary parts.
#[derive(Clone, Copy, PartialEq, Eq, Structural, Debug)]
pub struct FixedComplex {
    pub re: i64,
    pub im: i64,
}

impl View for FixedComplex {
    type V = (int, int);

    open spec fn view(&self) -> (int, int) {
        (self.re as int, self.im as int)
    }
}

/// Fixed-point product, rounded down.
pub open spec fn fx_mul(a: int, b: int) -> int {
    (a * b) / (ONE as int)
}

/// One step of the quadratic map: `z*z + c`.
pub open spec fn square_plus(z: (int, int), c: (int, int)) -> (int, int) {
    (fx_mul(z.0, z.0) - fx_mul(z.1, z.1) + c.0, fx_mul(2 * z.0, z.1) + c.1)
}

/// Squared modulus `|z|^2`.
pub open spec fn norm_sqr(z: (int, int)) -> int {
    fx_mul(z.0, z.0) + fx_mul(z.1, z.1)
}

/// `|z|^2 > 4`, i.e. `z` lies outside the escape radius 2.
pub open spec fn beyond_radius(z: (int, int)) -> bool {
    norm_sqr(z) > 4 * ONE
}

/// The `k`-th iterate of `z -> z*z + c` from `z = 0`.
pub open spec fn iterate(c: (int, int), k: nat) -> (int, int)
    decreases k,
{
    if k == 0 {
        (0, 0)
    } else {
        square_plus(iterate(c, (k - 1) as nat), c)
    }
}

/// The point `c` escapes within `n` iterations: some iterate from the
/// first to the `n`-th lies beyond the escape radius.
pub open spec fn escapes(c: (int, int), n: nat) -> bool {
    exists|k: nat| 1 <= k <= n && #[trigger] beyond_radius(iterate(c, k))
}

/// A square, rounded down, is never negative.
pub proof fn lemma_square_nonneg(a: int)
    ensures
        fx_mul(a, a) >= 0,
{
    assert(a * a >= 0) by (nonlinear_arith);
    assert((a * a) / (ONE as int) >= 0) by (nonlinear_arith)
        requires
            a * a >= 0,
    ;
}

/// A point within the escape radius has small components.
pub proof fn lemma_inside_small(z: (int, int))
    requires
        !beyond_radius(z),
    ensures
        small(z),
{
    lemma_square_nonneg(z.0);
    lemma_square_nonneg(z.1);
    lemma_large_square(z.0);
    lemma_large_square(z.1);
}

/// A component of magnitude above 3 has a square above 4.
proof fn lemma_large_square(a: int)
    ensures
        a > 3 * ONE || a < -3 * ONE ==> fx_mul(a, a) > 4 * ONE,
{
    let one = ONE as int;
    if a > 3 * one || a < -3 * one {
        assert(a * a >= 9 * one * one) by (nonlinear_arith)
            requires
                a > 3 * one || a < -3 * one,
                one > 0,
        ;
        assert((a * a) / one >= 9 * one) by (nonlinear_arith)
            requires
                a * a >= 9 * one * one,
                one > 0,
        ;
    }
}

/// Fixed-point product of two machine integers.
fn mul_fixed(a: i64, b: i64) -> (r: i128)
    ensures
        r == fx_mul(a as int, b as int),
{
    proof {
        assert(-0x4000_0000_0000_0000_0000_0000_0000_0000 <= (a as int) * (b as int) <= 0x4000_0000_0000_0000_0000_0000_0000_0000) by (nonlinear_arith)
            requires
                -0x8000_0000_0000_0000 <= a < 0x8000_0000_0000_0000,
                -0x8000_0000_0000_0000 <= b < 0x8000_0000_0000_0000,
        ;
    }
    let p: i128 = (a as i128) * (b as i128);
    proof {
        let one = ONE as int;
        assert(-0x4000_0000_0000_0000_0000_0000_0000_0000 <= p as int <= 0x4000_0000_0000_0000_0000_0000_0000_0000) by (nonlinear_arith)
            requires
                p == (a as int) * (b as int),
                -0x8000_0000_0000_0000 <= a < 0x8000_0000_0000_0000,
                -0x8000_0000_0000_0000 <= b < 0x8000_0000_0000_0000,
        ;
        assert(-0x4000_0000_0000_0000_0000_0000_0000_0000 <= (p as int) / one <= 0x4000_0000_0000_0000_0000_0000_0000_0000) by (nonlinear_arith)
            requires
                -0x4000_0000_0000_0000_0000_0000_0000_0000 <= p as int <= 0x4000_0000_0000_0000_0000_0000_0000_0000,
                one > 1,
        ;
    }
    match p.checked_div_euclid(ONE as i128) {
        Some(q) => q,
        None => 0,
    }
}

/// Whether `|z|^2 > 4`.
pub fn is_beyond_radius(z: &FixedComplex) -> (r: bool)
    requires
        -0x4000_0000_0000_0000 <= z.re <= 0x4000_0000_0000_0000,
        -0x4000_0000_0000_0000 <= z.im <= 0x4000_0000_0000_0000,
    ensures
        r == beyond_radius(z@),
{
    let a = mul_fixed(z.re, z.re);
    let b = mul_fixed(z.im, z.im);
    proof {
        lemma_square_nonneg(z.re as int);
        lemma_square_nonneg(z.im as int);
        lemma_square_bound(z.re as int);
        lemma_square_bound(z.im as int);
    }
    a + b > 4 * (ONE as i128)
}

proof fn lemma_square_bound(a: int)
    requires
        -0x4000_0000_0000_0000 <= a <= 0x4000_0000_0000_0000,
    ensures
        fx_mul(a, a) <= 0x1000_0000_0000_0000_0000_0000_0000_0000,
{
    let one = ONE as int;
    assert(a * a >= 0) by (nonlinear_arith);
    assert(a * a <= 0x1000_0000_0000_0000_0000_0000_0000_0000) by (nonlinear_arith)
        requires
            -0x4000_0000_0000_0000 <= a <= 0x4000_0000_0000_0000,
    ;
    assert((a * a) / one <= a * a) by (nonlinear_arith)
        requires
            a * a >= 0,
            one > 1,
    ;
}

/// One step of the quadratic map, `z*z + c`, from a point inside the
/// escape radius.
pub fn square_plus_exec(z: &FixedComplex, c: &FixedComplex) -> (r: FixedComplex)
    requires
        small(z@),
        within_bound(c@),
    ensures
        r@ == square_plus(z@, c@),
        -0x4000_0000_0000_0000 <= r.re <= 0x4000_0000_0000_0000,
        -0x4000_0000_0000_0000 <= r.im <= 0x4000_0000_0000_0000,
{
    let rr = mul_fixed(z.re, z.re);
    let ii = mul_fixed(z.im, z.im);
    let ri = mul_fixed(2 * z.re, z.im);
    proof {
        lemma_small_products(z.re as int, z.im as int);
    }
    let re = rr - ii + (c.re as i128);
    let im = ri + (c.im as i128);
    FixedComplex { re: re as i64, im: im as i64 }
}

proof fn lemma_small_products(a: int, b: int)
    requires
        -3 * ONE <= a <= 3 * ONE,
        -3 * ONE <= b <= 3 * ONE,
    ensures
        0 <= fx_mul(a, a) <= 9 * ONE,
        0 <= fx_mul(b, b) <= 9 * ONE,
        -18 * ONE <= fx_mul(2 * a, b) <= 18 * ONE,
{
    let one = ONE as int;
    assert(0 <= a * a <= 9 * one * one) by (nonlinear_arith)
        requires
            -3 * one <= a <= 3 * one,
    ;
    assert(0 <= b * b <= 9 * one * one) by (nonlinear_arith)
        requires
            -3 * one <= b <= 3 * one,
    ;
    assert(-18 * one * one <= (2 * a) * b <= 18 * one * one) by (nonlinear_arith)
        requires
            -3 * one <= a <= 3 * one,
            -3 * one <= b <= 3 * one,
    ;
    lemma_div_range(a * a, 0, 9, one);
    lemma_div_range(b * b, 0, 9, one);
    lemma_div_range((2 * a) * b, -18, 18, one);
}

/// `lo * d * d <= x <= hi * d * d` gives `lo * d <= x / d <= hi * d` for a
/// positive `d`.
proof fn lemma_div_range(x: int, lo: int, hi: int, d: int)
    requires
        d > 0,
        lo * d * d <= x <= hi * d * d,
    ensures
        lo * d <= x / d <= hi * d,
{
    lemma_div_is_ordered(lo * d * d, x, d);
    lemma_div_is_ordered(x, hi * d * d, d);
    lemma_div_multiples_vanish(lo * d, d);
    lemma_div_multiples_vanish(hi * d, d);
    assert(d * (lo * d) == lo * d * d) by (nonlinear_arith);
    assert(d * (hi * d) == hi * d * d) by (nonlinear_arith);
}

/// Division rounded toward zero, for a positive divisor.
pub open spec fn trunc_div(a: int, d: int) -> int {
    if a >= 0 {
        a / d
    } else {
        -((-a) / d)
    }
}

/// A quotient by a positive divisor lies between `-|a|` and `|a|`.
pub proof fn lemma_quotient_range(a: int, d: int)
    requires
        d > 0,
    ensures
        a >= 0 ==> 0 <= a / d <= a,
        a < 0 ==> a <= a / d < 0,
        a >= 0 ==> 0 <= trunc_div(a, d) <= a,
        a < 0 ==> a <= trunc_div(a, d) <= 0,
{
    if a >= 0 {
        assert(0 <= a / d <= a) by (nonlinear_arith)
            requires
                a >= 0,
                d > 0,
        ;
    } else {
        assert(a <= a / d < 0) by (nonlinear_arith)
            requires
                a < 0,
                d > 0,
        ;
        assert(0 <= (-a) / d <= -a) by (nonlinear_arith)
            requires
                -a > 0,
                d > 0,
        ;
    }
}

/// Division rounded down, by a positive divisor.
pub fn div_floor(a: i128, d: i128) -> (r: i128)
    requires
        d > 0,
    ensures
        r == a as int / d as int,
{
    proof {
        lemma_quotient_range(a as int, d as int);
    }
    match a.checked_div_euclid(d) {
        Some(q) => q,
        None => 0,
    }
}

/// Division rounded toward zero, by a positive divisor.
pub fn div_trunc(a: i128, d: i128) -> (r: i128)
    requires
        d > 0,
    ensures
        r == trunc_div(a as int, d as int),
{
    proof {
        lemma_quotient_range(a as int, d as int);
        lemma_quotient_range(-(a as int), d as int);
    }
    match a.checked_div(d) {
        Some(q) => q,
        None => 0,
    }
}

} // verus!
