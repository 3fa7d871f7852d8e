//! Integer screen rectangles, kept non-empty and within half the `i32`
//! range as SDL's rectangles are.
use vstd::prelude::*;

verus! {

/// The largest side length and position a rectangle may have.
pub const MAX_SIDE: u32 = 1073741823;

/// The smallest position a rectangle may have.
pub const MIN_POS: i32 = -1073741824;

/// `v` clamped to the position range.
pub open spec fn clamp_pos(v: int) -> int {
    if v > MAX_SIDE {
        MAX_SIDE as int
    } else if v < MIN_POS {
        MIN_POS as int
    } else {
        v
    }
}

/// `v` clamped to the side range: zero becomes one.
pub open spec fn clamp_side(v: int) -> int {
    if v <= 0 {
        1
    } else if v > MAX_SIDE {
        MAX_SIDE as int
    } else {
        v
    }
}

/// A rectangle with its top-left corner at `(x, y)`.
#[derive(Clone, Copy, PartialEq, Eq, Structural, Debug)]
pub struct Rect {
    pub x: i32,
    pub y: i32,
    pub w: u32,
    pub h: u32,
}

/// The rectangle `Rect::new` makes of the given values.
pub open spec fn rect_of(x: int, y: int, w: int, h: int) -> Rect {
    Rect {
        x: clamp_pos(x) as i32,
        y: clamp_pos(y) as i32,
        w: clamp_side(w) as u32,
        h: clamp_side(h) as u32,
    }
}

pub(crate) fn clamp_pos_exec(v: i64) -> (r: i32)
    ensures
        r as int == clamp_pos(v as int),
{
    if v > MAX_SIDE as i64 {
        MAX_SIDE as i32
    } else if v < MIN_POS as i64 {
        MIN_POS
    } else {
        v as i32
    }
}

pub(crate) fn clamp_side_exec(v: i64) -> (r: u32)
    ensures
        r as int == clamp_side(v as int),
{
    if v <= 0 {
        1
    } else if v > MAX_SIDE as i64 {
        MAX_SIDE
    } else {
        v as u32
    }
}

impl Rect {
    /// Whether `(px, py)` lies inside: left and top edges included, right and
    /// bottom edges excluded.
    pub open spec fn contains(&self, px: int, py: int) -> bool {
        self.x <= px < self.x + self.w && self.y <= py < self.y + self.h
    }

    /// Within the ranges that every constructor and setter keeps.
    pub open spec fn wf(&self) -> bool {
        &&& MIN_POS <= self.x <= MAX_SIDE
        &&& MIN_POS <= self.y <= MAX_SIDE
        &&& 1 <= self.w <= MAX_SIDE
        &&& 1 <= self.h <= MAX_SIDE
    }

    /// A rectangle with positions and sides clamped into range.
    pub fn new(x: i64, y: i64, w: i64, h: i64) -> (r: Rect)
        ensures
            r == rect_of(x as int, y as int, w as int, h as int),
            r.wf(),
    {
        Rect { x: clamp_pos_exec(x), y: clamp_pos_exec(y), w: clamp_side_exec(w), h: clamp_side_exec(h) }
    }

    /// Whether `(px, py)` lies inside: left and top edges included, right and
    /// bottom edges excluded.
    pub fn contains_point(&self, px: i32, py: i32) -> (r: bool)
        ensures
            r == self.contains(px as int, py as int),
    {
        let px = px as i64;
        let py = py as i64;
        (self.x as i64) <= px && px < (self.x as i64) + (self.w as i64) && (self.y as i64) <= py
            && py < (self.y as i64) + (self.h as i64)
    }

    /// The same size, centred on `(px, py)`.
    pub fn centered_on(&self, px: i32, py: i32) -> (r: Rect)
        requires
            self.wf(),
        ensures
            r == (Rect {
                x: clamp_pos(clamp_pos(px as int) - self.w / 2) as i32,
                y: clamp_pos(clamp_pos(py as int) - self.h / 2) as i32,
                ..*self
            }),
            r.wf(),
    {
        let cx = clamp_pos_exec(px as i64);
        let cy = clamp_pos_exec(py as i64);
        Rect {
            x: clamp_pos_exec((cx as i64) - ((self.w / 2) as i64)),
            y: clamp_pos_exec((cy as i64) - ((self.h / 2) as i64)),
            ..*self
        }
    }
}

} // verus!
