//! The orbit of a single point under `z -> z*z + c`.
use crate::fixed::{
    beyond_radius, is_beyond_radius, lemma_inside_small, small, square_plus, square_plus_exec,
    within_bound, FixedComplex,
};
use crate::viewport::{pixel_of, ComplexBBox};
use itertools::Itertools;
use vstd::prelude::*;

verus! {

/// Number of iterations an orbit trace runs at most.
pub const ORBIT_CAP: u32 = 50;

/// The views of a sequence of points.
pub open spec fn points_view(v: Seq<FixedComplex>) -> Seq<(int, int)> {
    v.map_values(|p: FixedComplex| p@)
}

/// The iterates that follow `z`, at most `remaining` of them, up to and
/// including the first one beyond the escape radius.
pub open spec fn orbit_tail(c: (int, int), z: (int, int), remaining: nat) -> Seq<(int, int)>
    decreases remaining,
{
    if remaining == 0 {
        seq![]
    } else {
        let next = square_plus(z, c);
        if beyond_radius(next) {
            seq![next]
        } else {
            seq![next] + orbit_tail(c, next, (remaining - 1) as nat)
        }
    }
}

/// The orbit trace of `c`: the origin, the point `c` itself, then the
/// iterates from zero up to the first escaping one or the cap.
pub open spec fn orbit_trace(c: (int, int)) -> Seq<(int, int)> {
    seq![(0int, 0int), c] + orbit_tail(c, (0, 0), ORBIT_CAP as nat)
}

/// A tail holds at most `remaining` points.
pub proof fn lemma_tail_len(c: (int, int), z: (int, int), remaining: nat)
    ensures
        orbit_tail(c, z, remaining).len() <= remaining,
    decreases remaining,
{
    if remaining > 0 {
        lemma_tail_len(c, square_plus(z, c), (remaining - 1) as nat);
    }
}

/// Traces the orbit of `c`: `[0, c, z1, z2, ...]` with `z1 = c` and
/// `z(k+1) = zk * zk + c`, ending with the first iterate beyond the escape
/// radius, or after `ORBIT_CAP` iterates.
pub fn calc_orbits(c: FixedComplex) -> (r: Vec<FixedComplex>)
    requires
        within_bound(c@),
    ensures
        points_view(r@) == orbit_trace(c@),
        r.len() <= ORBIT_CAP + 2,
        r@[0]@ == (0int, 0int),
        r@[1] == c,
{
    let zero = FixedComplex { re: 0, im: 0 };
    let mut points: Vec<FixedComplex> = Vec::new();
    points.push(zero);
    points.push(c);
    let mut z = zero;
    let mut remaining: u32 = ORBIT_CAP;
    assert(points_view(points@) =~= seq![(0int, 0int), c@]);
    while remaining > 0
        invariant
            within_bound(c@),
            small(z@),
            remaining <= ORBIT_CAP,
            2 <= points.len() <= 2 + (ORBIT_CAP - remaining),
            points@[0] == zero,
            points@[1] == c,
            points_view(points@) + orbit_tail(c@, z@, remaining as nat) == orbit_trace(c@),
        decreases remaining,
    {
        let next = square_plus_exec(&z, &c);
        let ghost before = points@;
        points.push(next);
        assert(points_view(points@) =~= points_view(before) + seq![next@]);
        if is_beyond_radius(&next) {
            assert(orbit_tail(c@, z@, remaining as nat) == seq![next@]);
            assert(points_view(points@) + orbit_tail(c@, next@, 0) =~= points_view(points@));
            remaining = 0;
            z = FixedComplex { re: 0, im: 0 };
        } else {
            proof {
                lemma_inside_small(next@);
                assert(points_view(before) + orbit_tail(c@, z@, remaining as nat) =~= points_view(
                    points@,
                ) + orbit_tail(c@, next@, (remaining - 1) as nat));
            }
            z = next;
            remaining = remaining - 1;
        }
    }
    proof {
        lemma_tail_len(c@, (0, 0), ORBIT_CAP as nat);
        assert(points_view(points@) + orbit_tail(c@, z@, 0) =~= points_view(points@));
    }
    points
}

/// The pixel of a `w` by `h` surface at which `c` is shown.
pub open spec fn screen_pixel(v: ((int, int), (int, int)), c: (int, int), w: int, h: int) -> (i32, i32) {
    (pixel_of(v, c, w, h).0 as i32, pixel_of(v, c, w, h).1 as i32)
}

/// Each point paired with the next one, in order.
///
/// Relies on itertools' `tuple_windows` for pairs: over `n` items it yields
/// the `n - 1` windows `(p[i], p[i + 1])` in order, and none for fewer than
/// two items.
#[verifier::external_body]
fn neighbour_pairs(ps: &Vec<(i32, i32)>) -> (r: Vec<((i32, i32), (i32, i32))>)
    ensures
        r.len() == if ps.len() == 0 {
            0
        } else {
            ps.len() - 1
        },
        forall|i: int| 0 <= i < r.len() ==> #[trigger] r@[i] == (ps@[i], ps@[i + 1]),
{
    ps.iter().copied().tuple_windows().collect()
}

/// The line segments that draw `orbit` on a `w` by `h` surface: each point
/// joined to the next, in pixels. The first segment joins the origin to the
/// traced point.
pub fn orbit_segments(view: &ComplexBBox, orbit: &Vec<FixedComplex>, w: i32, h: i32) -> (r: Vec<((i32, i32), (i32, i32))>)
    requires
        view.wf(),
    ensures
        r.len() == if orbit.len() == 0 {
            0
        } else {
            orbit.len() - 1
        },
        forall|i: int|
            0 <= i < r.len() ==> #[trigger] r@[i] == (
                screen_pixel(view@, orbit@[i]@, w as int, h as int),
                screen_pixel(view@, orbit@[i + 1]@, w as int, h as int),
            ),
{
    let mut pixels: Vec<(i32, i32)> = Vec::new();
    let mut i: usize = 0;
    while i < orbit.len()
        invariant
            view.wf(),
            i <= orbit.len(),
            pixels.len() == i,
            forall|j: int|
                0 <= j < i ==> #[trigger] pixels@[j] == screen_pixel(view@, orbit@[j]@, w as int, h as int),
        decreases orbit.len() - i,
    {
        let p = view.complex_to_screen(orbit[i], w, h);
        pixels.push(p);
        i = i + 1;
    }
    neighbour_pairs(&pixels)
}

} // verus!
