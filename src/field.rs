//! The escape-time field: which pixels of a view escape within a budget.
use crate::fixed::{
    beyond_radius, escapes, is_beyond_radius, iterate, lemma_inside_small, small,
    square_plus_exec, within_bound, FixedComplex,
};
use crate::viewport::{screen_point, ComplexBBox};
use rayon::iter::{IndexedParallelIterator, IntoParallelIterator, ParallelIterator};
use vstd::prelude::*;

verus! {

/// Whether pixel `(x, y)` of a `w` by `h` surface escapes within `n`
/// iterations.
pub open spec fn pixel_escapes(v: ((int, int), (int, int)), x: int, y: int, w: int, h: int, n: nat) -> bool {
    escapes(screen_point(v, x, y, w, h), n)
}

/// Byte `i` of row `y` in four-byte pixels (blue, green, red, alpha): white
/// where the pixel escapes, black where it does not, always opaque.
pub open spec fn row_byte(v: ((int, int), (int, int)), i: int, y: int, w: int, h: int, n: nat) -> u8 {
    if i % 4 == 3 {
        255
    } else if pixel_escapes(v, i / 4, y, w, h, n) {
        255
    } else {
        0
    }
}

/// The bytes of row `y`.
pub open spec fn row_bytes(v: ((int, int), (int, int)), y: int, w: int, h: int, n: nat) -> Seq<u8> {
    Seq::new((4 * w) as nat, |i: int| row_byte(v, i, y, w, h, n))
}

/// Escaping is monotonic in the budget: a point that escapes within `n`
/// iterations escapes within any larger budget too.
pub proof fn lemma_escape_monotone(c: (int, int), n: nat, m: nat)
    requires
        n <= m,
    ensures
        escapes(c, n) ==> escapes(c, m),
{
    if escapes(c, n) {
        let k = choose|k: nat| 1 <= k <= n && #[trigger] beyond_radius(iterate(c, k));
        assert(1 <= k <= m && beyond_radius(iterate(c, k)));
    }
}

/// A pixel marked as escaped at budget `n` stays marked at every larger
/// budget.
pub proof fn lemma_pixel_escape_monotone(
    v: ((int, int), (int, int)),
    x: int,
    y: int,
    w: int,
    h: int,
    n: nat,
    m: nat,
)
    requires
        n <= m,
    ensures
        pixel_escapes(v, x, y, w, h, n) ==> pixel_escapes(v, x, y, w, h, m),
{
    lemma_escape_monotone(screen_point(v, x, y, w, h), n, m);
}

/// Whether `c` escapes within `n` iterations of `z -> z*z + c` from zero.
pub fn escapes_within(c: &FixedComplex, n: u32) -> (r: bool)
    requires
        within_bound(c@),
    ensures
        r == escapes(c@, n as nat),
{
    let mut z = FixedComplex { re: 0, im: 0 };
    let mut i: u32 = 0;
    while i < n
        invariant
            within_bound(c@),
            i <= n,
            z@ == iterate(c@, i as nat),
            small(z@),
            forall|k: nat| 1 <= k <= i ==> !#[trigger] beyond_radius(iterate(c@, k)),
        decreases n - i,
    {
        let next = square_plus_exec(&z, c);
        assert(next@ == iterate(c@, (i + 1) as nat));
        if is_beyond_radius(&next) {
            assert(beyond_radius(iterate(c@, (i + 1) as nat)));
            return true;
        }
        proof {
            lemma_inside_small(next@);
        }
        z = next;
        i = i + 1;
    }
    assert(!escapes(c@, n as nat));
    false
}

/// Renders row `y` of a `w` by `h` surface as four-byte pixels.
pub fn render_row(view: &ComplexBBox, y: u32, w: u32, h: u32, iterations: u32) -> (r: Vec<u8>)
    requires
        view.wf(),
        y < h <= i32::MAX,
        w <= i32::MAX,
    ensures
        r@ == row_bytes(view@, y as int, w as int, h as int, iterations as nat),
{
    let mut row: Vec<u8> = Vec::new();
    let mut x: u32 = 0;
    while x < w
        invariant
            view.wf(),
            y < h <= i32::MAX,
            x <= w <= i32::MAX,
            row.len() == 4 * x,
            forall|i: int|
                0 <= i < 4 * x ==> row@[i] == #[trigger] row_byte(
                    view@,
                    i,
                    y as int,
                    w as int,
                    h as int,
                    iterations as nat,
                ),
        decreases w - x,
    {
        let c = view.screen_to_complex(x as i32, y as i32, w as i32, h as i32);
        let hit = escapes_within(&c, iterations);
        let color: u8 = if hit {
            255
        } else {
            0
        };
        let ghost before = row@;
        row.push(color);
        row.push(color);
        row.push(color);
        row.push(255);
        proof {
            assert forall|i: int| 0 <= i < 4 * (x + 1) implies row@[i] == #[trigger] row_byte(
                view@,
                i,
                y as int,
                w as int,
                h as int,
                iterations as nat,
            ) by {
                if i >= 4 * x {
                    assert(i / 4 == x as int);
                }
            }
        }
        x = x + 1;
    }
    assert(row@ =~= row_bytes(view@, y as int, w as int, h as int, iterations as nat));
    row
}

/// Renders every row of a non-empty surface, rows in parallel.
///
/// Relies on rayon: `into_par_iter` over the range `0..h`, `map` and
/// `collect_into_vec` yield one result per index, in index order. Each row
/// is what `render_row` ensures.
#[verifier::external_body]
fn render_rows_parallel(view: &ComplexBBox, w: u32, h: u32, iterations: u32) -> (r: Vec<Vec<u8>>)
    requires
        view.wf(),
        0 < w <= i32::MAX,
        0 < h <= i32::MAX,
    ensures
        r.len() == h,
        forall|y: int|
            0 <= y < h ==> #[trigger] r@[y]@ == row_bytes(view@, y, w as int, h as int, iterations as nat),
{
    let mut rows: Vec<Vec<u8>> = Vec::new();
    (0..h).into_par_iter().map(|y| render_row(view, y, w, h, iterations)).collect_into_vec(&mut rows);
    rows
}

/// Renders the escape-time field of `view` on a `w` by `h` surface: one row
/// of four-byte pixels per pixel row, top row first. An empty surface gives
/// no rows.
pub fn render_field(view: &ComplexBBox, w: u32, h: u32, iterations: u32) -> (r: Vec<Vec<u8>>)
    requires
        view.wf(),
        w <= i32::MAX,
        h <= i32::MAX,
    ensures
        w == 0 || h == 0 ==> r.len() == 0,
        w > 0 && h > 0 ==> r.len() == h,
        forall|y: int|
            0 <= y < r.len() ==> #[trigger] r@[y]@ == row_bytes(view@, y, w as int, h as int, iterations as nat),
{
    if w == 0 || h == 0 {
        Vec::new()
    } else {
        render_rows_parallel(view, w, h, iterations)
    }
}

} // verus!
