//! The interaction state machine: turns input events into view changes and
//! recompute or redraw decisions.
use crate::fixed::{div_floor, lemma_quotient_range, within_bound, FixedComplex, ONE};
use crate::input::{Button, InputEvent, Key};
use crate::menu::{menu_choice, Menu};
use crate::orbit::{calc_orbits, orbit_trace, points_view};
use crate::rect::{clamp_pos, clamp_pos_exec, clamp_side, clamp_side_exec, rect_of, Rect, MAX_SIDE};
use crate::viewport::{
    clamp_i32, clamp_to_i32, corners_wf, drag_delta, screen_point, shift_in_range, shifted, zoomed, ComplexBBox,
};
use vstd::prelude::*;

verus! {

/// The iteration budget at start and after a reset.
pub const INITIAL_ITERATIONS: u32 = 50;

/// Parts per unit in which a pinch is measured.
pub const PINCH_UNIT: i64 = 1000000;

/// What a gesture is doing.
#[derive(Clone, Copy, PartialEq, Eq, Structural, Debug)]
pub enum Mode {
    Idle,
    /// Panning with the primary button held.
    Dragging,
    /// A two-finger pinch is in progress.
    PinchZooming,
}

/// What the host has to do after an event.
#[derive(Clone, Copy, PartialEq, Eq, Debug)]
pub struct Outcome {
    /// Leave the program.
    pub quit: bool,
    /// Render the field again for the current view, budget and size.
    pub recompute: bool,
    /// Enter (`true`) or leave (`false`) fullscreen.
    pub fullscreen: Option<bool>,
    /// Move the pointer to this pixel.
    pub warp: Option<(i32, i32)>,
    /// Restart the relative pointer motion count.
    pub reset_relative: bool,
}

impl Outcome {
    /// Nothing to do beyond a redraw.
    pub fn nothing() -> (r: Outcome)
        ensures
            r == quiet(),
    {
        Outcome { quit: false, recompute: false, fullscreen: None, warp: None, reset_relative: false }
    }
}

/// Nothing to do beyond a redraw.
pub open spec fn quiet() -> Outcome {
    Outcome { quit: false, recompute: false, fullscreen: None, warp: None, reset_relative: false }
}

/// A recompute and nothing else.
pub open spec fn recompute() -> Outcome {
    Outcome { recompute: true, ..quiet() }
}

/// The region shown at start and after a reset: from `-1.5 - 1i` to
/// `0.5 + 1i`.
pub open spec fn initial_view() -> ComplexBBox {
    ComplexBBox {
        ll: FixedComplex { re: (-3 * ONE / 2) as i64, im: (-ONE) as i64 },
        ur: FixedComplex { re: (ONE / 2) as i64, im: ONE },
    }
}

/// The explorer's state.
pub struct ViewState {
    /// The region of the complex plane shown.
    pub view: ComplexBBox,
    /// The iteration budget of the field.
    pub iterations: u32,
    /// The part of the last rendered field that is shown...
    pub src_rect: Rect,
    /// ...and where on the surface it is shown.
    pub dest_rect: Rect,
    /// Pixels dragged since the primary button went down.
    pub drag: (i32, i32),
    pub mode: Mode,
    /// Size of the drawable surface.
    pub width: u32,
    pub height: u32,
    /// Centre of the pinch in progress.
    pub pinch_at: (i32, i32),
    /// The complex point under the pointer, for the readout.
    pub position: FixedComplex,
    pub show_coords: bool,
    pub display_menu: bool,
    pub full_screen: bool,
    /// The orbit captured last, if any.
    pub saved_orbit: Vec<FixedComplex>,
}

/// The rectangle covering a `w` by `h` surface.
pub open spec fn full_rect(w: int, h: int) -> Rect {
    rect_of(0, 0, w, h)
}

/// `v` moved into `0..n`.
pub open spec fn clamp_into(v: int, n: int) -> int {
    if v < 0 {
        0
    } else if v >= n {
        n - 1
    } else {
        v
    }
}

/// `v` moved into `0..=MAX_SIDE`.
pub open spec fn clamp_size(v: int) -> int {
    if v > MAX_SIDE {
        MAX_SIDE as int
    } else {
        v
    }
}

/// A side scaled by `f` parts per million, at least one pixel.
pub open spec fn scaled_side(v: int, f: int) -> int {
    clamp_side((v * f) / (PINCH_UNIT as int))
}

/// `r` centred on `(px, py)`.
pub open spec fn centered(r: Rect, px: int, py: int) -> Rect {
    Rect {
        x: clamp_pos(clamp_pos(px) - r.w / 2) as i32,
        y: clamp_pos(clamp_pos(py) - r.h / 2) as i32,
        ..r
    }
}

/// The pointer moved one pixel by a warp key.
pub open spec fn warp_target(key: Key, px: int, py: int) -> (int, int) {
    match key {
        Key::Right => (clamp_i32(px + 1), py),
        Key::Left => (clamp_i32(px - 1), py),
        Key::Up => (px, clamp_i32(py - 1)),
        _ => (px, clamp_i32(py + 1)),
    }
}

impl ViewState {
    pub open spec fn wf(&self) -> bool {
        &&& self.view.wf()
        &&& self.src_rect.wf()
        &&& self.dest_rect.wf()
        &&& self.width <= MAX_SIDE
        &&& self.height <= MAX_SIDE
        &&& within_bound(self.position@)
    }

    /// The surface has at least one pixel.
    pub open spec fn has_surface(&self) -> bool {
        self.width > 0 && self.height > 0
    }

    /// The rectangle covering the whole surface.
    pub open spec fn full(&self) -> Rect {
        full_rect(self.width as int, self.height as int)
    }

    /// The complex point under the pointer at `(px, py)`, moved onto the
    /// surface.
    pub open spec fn point_at(&self, px: int, py: int) -> (int, int) {
        screen_point(
            self.view@,
            clamp_into(px, self.width as int),
            clamp_into(py, self.height as int),
            self.width as int,
            self.height as int,
        )
    }

    /// `t` is `self` with the orbit under `(px, py)` captured.
    pub open spec fn captured(&self, t: ViewState, px: int, py: int) -> bool {
        if self.has_surface() {
            &&& t == ViewState { saved_orbit: t.saved_orbit, ..*self }
            &&& points_view(t.saved_orbit@) == orbit_trace(self.point_at(px, py))
        } else {
            t == *self
        }
    }

    /// A key went down with the pointer at `(px, py)`.
    pub open spec fn after_key_down(&self, t: ViewState, r: Outcome, key: Key, px: int, py: int) -> bool {
        match key {
            Key::Q => t == *self && r == Outcome { quit: true, ..quiet() },
            Key::C => t == ViewState { show_coords: !self.show_coords, ..*self } && r == quiet(),
            Key::I => if self.iterations <= u32::MAX / 2 {
                t == ViewState { iterations: (2 * self.iterations) as u32, ..*self } && r == recompute()
            } else {
                t == *self && r == quiet()
            },
            Key::F => t == ViewState { full_screen: !self.full_screen, ..*self } && r == Outcome {
                fullscreen: Some(!self.full_screen),
                ..quiet()
            },
            Key::Escape => if self.full_screen {
                t == ViewState { full_screen: false, ..*self } && r == Outcome {
                    fullscreen: Some(false),
                    ..quiet()
                }
            } else {
                t == *self && r == quiet()
            },
            Key::Home => t == ViewState {
                view: initial_view(),
                iterations: INITIAL_ITERATIONS,
                src_rect: self.full(),
                dest_rect: self.full(),
                drag: (0, 0),
                mode: Mode::Idle,
                ..*self
            } && r == recompute(),
            Key::Right | Key::Left | Key::Up | Key::Down => t == *self && r == Outcome {
                warp: Some(
                    (
                        warp_target(key, px, py).0 as i32,
                        warp_target(key, px, py).1 as i32,
                    ),
                ),
                ..quiet()
            },
            Key::M => t == ViewState { display_menu: !self.display_menu, ..*self } && r == quiet(),
            Key::Space => self.captured(t, px, py) && r == quiet(),
            Key::A | Key::Other => t == *self && r == quiet(),
        }
    }

    /// A key went up.
    pub open spec fn after_key_up(&self, t: ViewState, r: Outcome, key: Key) -> bool {
        r == quiet() && if key != Key::M {
            t == ViewState { display_menu: false, ..*self }
        } else {
            t == *self
        }
    }

    /// The pointer moved to `(x, y)`, by `(dx, dy)`.
    pub open spec fn after_motion(&self, t: ViewState, r: Outcome, x: int, y: int, dx: int, dy: int, touch: bool) -> bool {
        r == quiet() && if touch {
            t == *self
        } else if self.mode == Mode::Dragging {
            t == ViewState {
                drag: (clamp_i32(self.drag.0 + dx) as i32, clamp_i32(self.drag.1 + dy) as i32),
                dest_rect: Rect {
                    x: clamp_pos(self.dest_rect.x + dx) as i32,
                    y: clamp_pos(self.dest_rect.y + dy) as i32,
                    ..self.dest_rect
                },
                ..*self
            }
        } else if self.has_surface() {
            t == ViewState { position: t.position, ..*self } && t.position@ == self.point_at(x, y)
        } else {
            t == *self
        }
    }

    /// A pointer button went down at `(x, y)`, with `menu` laid out.
    pub open spec fn after_button_down(
        &self,
        t: ViewState,
        r: Outcome,
        menu: Menu,
        button: Button,
        x: int,
        y: int,
        touch: bool,
    ) -> bool {
        if touch {
            t == *self && r == quiet()
        } else {
            match button {
                Button::Left => if !self.display_menu {
                    if self.mode == Mode::Idle {
                        t == ViewState { drag: (0, 0), mode: Mode::Dragging, ..*self } && r == Outcome {
                            reset_relative: true,
                            ..quiet()
                        }
                    } else {
                        t == *self && r == quiet()
                    }
                } else {
                    let hidden = ViewState { display_menu: false, ..*self };
                    match menu_choice(menu, x, y) {
                        Some(key) => hidden.after_key_down(t, r, key, x, y),
                        None => t == hidden && r == quiet(),
                    }
                },
                Button::Right => self.captured(t, x, y) && r == quiet(),
                Button::Other => t == *self && r == quiet(),
            }
        }
    }

    /// The region after committing the drag: shifted against the drag where
    /// that stays in range.
    pub open spec fn panned_view(&self) -> ((int, int), (int, int)) {
        let d = drag_delta(
            self.view@,
            self.width as int,
            self.height as int,
            self.drag.0 as int,
            self.drag.1 as int,
        );
        if self.has_surface() && shift_in_range(d) && corners_wf(shifted(self.view@, d)) {
            shifted(self.view@, d)
        } else {
            self.view@
        }
    }

    /// A pointer button went up.
    pub open spec fn after_button_up(&self, t: ViewState, r: Outcome, button: Button, touch: bool) -> bool {
        if touch {
            t == *self && r == quiet()
        } else if button == Button::Left && self.mode == Mode::Dragging {
            &&& t == ViewState {
                view: t.view,
                dest_rect: self.full(),
                drag: (0, 0),
                mode: Mode::Idle,
                display_menu: false,
                ..*self
            }
            &&& t.view@ == self.panned_view()
            &&& r == Outcome { recompute: true, reset_relative: true, ..quiet() }
        } else {
            t == ViewState { display_menu: false, ..*self } && r == quiet()
        }
    }

    /// The wheel scrolled by `amount` with the pointer at `(px, py)`: zoom in
    /// by half for a positive amount, out by two otherwise.
    pub open spec fn after_wheel(&self, t: ViewState, r: Outcome, amount: int, px: int, py: int) -> bool {
        let n: int = if amount > 0 {
            1
        } else {
            2
        };
        let d: int = if amount > 0 {
            2
        } else {
            1
        };
        let z = zoomed(self.view@, self.point_at(px, py), n, d);
        if self.mode == Mode::Idle && self.has_surface() && corners_wf(z) {
            t == ViewState { view: t.view, ..*self } && t.view@ == z && r == recompute()
        } else {
            t == *self && r == quiet()
        }
    }

    /// A gesture centred on `(x, y)`.
    pub open spec fn after_gesture(&self, t: ViewState, r: Outcome, x: int, y: int, pinch: int, fingers: int) -> bool {
        r == quiet() && if fingers == 2 && self.mode != Mode::Dragging {
            if pinch > 0 {
                let f = PINCH_UNIT - 10 * pinch;
                let resized = Rect {
                    w: scaled_side(self.src_rect.w as int, f) as u32,
                    h: scaled_side(self.src_rect.h as int, f) as u32,
                    ..self.src_rect
                };
                t == ViewState {
                    src_rect: centered(resized, x, y),
                    dest_rect: self.full(),
                    mode: Mode::PinchZooming,
                    pinch_at: (x as i32, y as i32),
                    ..*self
                }
            } else {
                let f = PINCH_UNIT + 10 * pinch;
                let resized = Rect {
                    w: scaled_side(self.dest_rect.w as int, f) as u32,
                    h: scaled_side(self.dest_rect.h as int, f) as u32,
                    ..self.dest_rect
                };
                t == ViewState {
                    src_rect: self.full(),
                    dest_rect: centered(resized, x, y),
                    mode: Mode::PinchZooming,
                    pinch_at: (x as i32, y as i32),
                    ..*self
                }
            }
        } else {
            t == *self
        }
    }

    /// The region after committing a pinch: scaled by the ratio of the
    /// preview's source width to its destination width about the pinch
    /// centre, where that stays well formed.
    pub open spec fn pinched_view(&self) -> ((int, int), (int, int)) {
        let z = zoomed(
            self.view@,
            self.point_at(self.pinch_at.0 as int, self.pinch_at.1 as int),
            self.src_rect.w as int,
            self.dest_rect.w as int,
        );
        if self.has_surface() && corners_wf(z) {
            z
        } else {
            self.view@
        }
    }

    /// The fingers were lifted.
    pub open spec fn after_finger_up(&self, t: ViewState, r: Outcome) -> bool {
        if self.mode == Mode::PinchZooming {
            &&& t == ViewState {
                view: t.view,
                src_rect: self.full(),
                dest_rect: self.full(),
                mode: Mode::Idle,
                ..*self
            }
            &&& t.view@ == self.pinched_view()
            &&& r == recompute()
        } else {
            t == *self && r == quiet()
        }
    }

    /// The surface was resized to `w` by `h`.
    pub open spec fn after_resize(&self, t: ViewState, r: Outcome, w: int, h: int) -> bool {
        &&& t == ViewState {
            width: clamp_size(w) as u32,
            height: clamp_size(h) as u32,
            src_rect: full_rect(clamp_size(w), clamp_size(h)),
            dest_rect: full_rect(clamp_size(w), clamp_size(h)),
            ..*self
        }
        &&& r == recompute()
    }

    /// The state after `ev`, with `menu` laid out, and what the host has to
    /// do.
    pub open spec fn after(&self, t: ViewState, r: Outcome, menu: Menu, ev: InputEvent) -> bool {
        match ev {
            InputEvent::Quit => t == *self && r == Outcome { quit: true, ..quiet() },
            InputEvent::KeyDown { key, x, y } => self.after_key_down(t, r, key, x as int, y as int),
            InputEvent::KeyUp { key } => self.after_key_up(t, r, key),
            InputEvent::PointerMotion { x, y, dx, dy, touch } => self.after_motion(
                t,
                r,
                x as int,
                y as int,
                dx as int,
                dy as int,
                touch,
            ),
            InputEvent::ButtonDown { button, x, y, touch } => self.after_button_down(
                t,
                r,
                menu,
                button,
                x as int,
                y as int,
                touch,
            ),
            InputEvent::ButtonUp { button, touch } => self.after_button_up(t, r, button, touch),
            InputEvent::Wheel { amount, x, y } => self.after_wheel(t, r, amount as int, x as int, y as int),
            InputEvent::Gesture { x, y, pinch, fingers } => self.after_gesture(
                t,
                r,
                x as int,
                y as int,
                pinch as int,
                fingers as int,
            ),
            InputEvent::FingerUp => self.after_finger_up(t, r),
            InputEvent::Resized { w, h } => self.after_resize(t, r, w as int, h as int),
        }
    }
}

/// The rectangle covering a `w` by `h` surface.
fn full_rect_exec(w: u32, h: u32) -> (r: Rect)
    ensures
        r == full_rect(w as int, h as int),
        r.wf(),
{
    Rect::new(0, 0, w as i64, h as i64)
}

/// `v` moved into `0..n`.
fn clamp_into_exec(v: i32, n: u32) -> (r: i32)
    requires
        0 < n <= MAX_SIDE,
    ensures
        r as int == clamp_into(v as int, n as int),
{
    if v < 0 {
        0
    } else if (v as i64) >= (n as i64) {
        (n - 1) as i32
    } else {
        v
    }
}

/// A side scaled by `f` parts per million, at least one pixel.
fn scaled_side_exec(v: u32, f: i64) -> (r: u32)
    requires
        v <= MAX_SIDE,
        -0x1_0000_0000_0000 <= f <= 0x1_0000_0000_0000,
    ensures
        r as int == scaled_side(v as int, f as int),
{
    proof {
        assert(-0x1_0000_0000_0000 * 0x4000_0000 <= (v as int) * (f as int) <= 0x1_0000_0000_0000 * 0x4000_0000) by (nonlinear_arith)
            requires
                0 <= v <= 0x4000_0000,
                -0x1_0000_0000_0000 <= f <= 0x1_0000_0000_0000,
        ;
        lemma_quotient_range((v as int) * (f as int), PINCH_UNIT as int);
    }
    let q = div_floor((v as i128) * (f as i128), PINCH_UNIT as i128);
    clamp_side_exec(q as i64)
}

impl ViewState {
    /// The state at start on a `width` by `height` surface: the initial
    /// region and budget, previews covering the surface, nothing dragged or
    /// captured, the readout shown and the menu hidden.
    pub fn new(width: u32, height: u32) -> (r: ViewState)
        ensures
            r.wf(),
            r.view == initial_view(),
            r.iterations == INITIAL_ITERATIONS,
            r.width == clamp_size(width as int),
            r.height == clamp_size(height as int),
            r.src_rect == r.full(),
            r.dest_rect == r.full(),
            r.drag == (0i32, 0i32),
            r.mode == Mode::Idle,
            r.pinch_at == (0i32, 0i32),
            r.position@ == (0int, 0int),
            r.show_coords,
            !r.display_menu,
            !r.full_screen,
            r.saved_orbit@.len() == 0,
    {
        let w = clamp_size_exec(width);
        let h = clamp_size_exec(height);
        ViewState {
            view: initial_view_exec(),
            iterations: INITIAL_ITERATIONS,
            src_rect: full_rect_exec(w, h),
            dest_rect: full_rect_exec(w, h),
            drag: (0, 0),
            mode: Mode::Idle,
            width: w,
            height: h,
            pinch_at: (0, 0),
            position: FixedComplex { re: 0, im: 0 },
            show_coords: true,
            display_menu: false,
            full_screen: false,
            saved_orbit: Vec::new(),
        }
    }

    /// The complex point under the pointer at `(px, py)`.
    fn point_at_exec(&self, px: i32, py: i32) -> (r: FixedComplex)
        requires
            self.wf(),
            self.has_surface(),
        ensures
            r@ == self.point_at(px as int, py as int),
            within_bound(r@),
    {
        let x = clamp_into_exec(px, self.width);
        let y = clamp_into_exec(py, self.height);
        self.view.screen_to_complex(x, y, self.width as i32, self.height as i32)
    }

    /// The orbit under the pointer at `(px, py)`; empty on an empty surface.
    pub fn live_orbit(&self, px: i32, py: i32) -> (r: Vec<FixedComplex>)
        requires
            self.wf(),
        ensures
            self.has_surface() ==> points_view(r@) == orbit_trace(self.point_at(px as int, py as int)),
            !self.has_surface() ==> r@.len() == 0,
    {
        if self.width > 0 && self.height > 0 {
            let c = self.point_at_exec(px, py);
            calc_orbits(c)
        } else {
            Vec::new()
        }
    }

    fn capture(&mut self, px: i32, py: i32)
        requires
            old(self).wf(),
        ensures
            final(self).wf(),
            old(self).captured(*final(self), px as int, py as int),
    {
        if self.width > 0 && self.height > 0 {
            let c = self.point_at_exec(px, py);
            self.saved_orbit = calc_orbits(c);
        }
    }

    fn key_down(&mut self, key: Key, px: i32, py: i32) -> (r: Outcome)
        requires
            old(self).wf(),
        ensures
            final(self).wf(),
            old(self).after_key_down(*final(self), r, key, px as int, py as int),
    {
        let none = Outcome::nothing();
        match key {
            Key::Q => Outcome { quit: true, ..none },
            Key::C => {
                self.show_coords = !self.show_coords;
                none
            },
            Key::I => {
                if self.iterations <= u32::MAX / 2 {
                    self.iterations = 2 * self.iterations;
                    Outcome { recompute: true, ..none }
                } else {
                    none
                }
            },
            Key::F => {
                self.full_screen = !self.full_screen;
                Outcome { fullscreen: Some(self.full_screen), ..none }
            },
            Key::Escape => {
                if self.full_screen {
                    self.full_screen = false;
                    Outcome { fullscreen: Some(false), ..none }
                } else {
                    none
                }
            },
            Key::Home => {
                self.view = initial_view_exec();
                self.iterations = INITIAL_ITERATIONS;
                self.src_rect = full_rect_exec(self.width, self.height);
                self.dest_rect = full_rect_exec(self.width, self.height);
                self.drag = (0, 0);
                self.mode = Mode::Idle;
                Outcome { recompute: true, ..none }
            },
            Key::Right => Outcome { warp: Some((clamp_to_i32((px as i128) + 1), py)), ..none },
            Key::Left => Outcome { warp: Some((clamp_to_i32((px as i128) - 1), py)), ..none },
            Key::Up => Outcome { warp: Some((px, clamp_to_i32((py as i128) - 1))), ..none },
            Key::Down => Outcome { warp: Some((px, clamp_to_i32((py as i128) + 1))), ..none },
            Key::M => {
                self.display_menu = !self.display_menu;
                none
            },
            Key::Space => {
                self.capture(px, py);
                none
            },
            Key::A | Key::Other => none,
        }
    }

    fn motion(&mut self, x: i32, y: i32, dx: i32, dy: i32, touch: bool)
        requires
            old(self).wf(),
        ensures
            final(self).wf(),
            old(self).after_motion(*final(self), quiet(), x as int, y as int, dx as int, dy as int, touch),
    {
        if touch {
        } else if self.mode == Mode::Dragging {
            self.drag = (
                clamp_to_i32((self.drag.0 as i128) + (dx as i128)),
                clamp_to_i32((self.drag.1 as i128) + (dy as i128)),
            );
            self.dest_rect = Rect {
                x: clamp_pos_exec((self.dest_rect.x as i64) + (dx as i64)),
                y: clamp_pos_exec((self.dest_rect.y as i64) + (dy as i64)),
                ..self.dest_rect
            };
        } else if self.width > 0 && self.height > 0 {
            self.position = self.point_at_exec(x, y);
        }
    }

    fn button_down(&mut self, menu: &Menu, button: Button, x: i32, y: i32, touch: bool) -> (r: Outcome)
        requires
            old(self).wf(),
        ensures
            final(self).wf(),
            old(self).after_button_down(*final(self), r, *menu, button, x as int, y as int, touch),
    {
        let none = Outcome::nothing();
        if touch {
            return none;
        }
        match button {
            Button::Left => {
                if !self.display_menu {
                    if self.mode == Mode::Idle {
                        self.drag = (0, 0);
                        self.mode = Mode::Dragging;
                        Outcome { reset_relative: true, ..none }
                    } else {
                        none
                    }
                } else {
                    self.display_menu = false;
                    match menu.selected(x, y) {
                        Some(i) => match menu.buttons[i].0 {
                            Some(key) => self.key_down(key, x, y),
                            None => none,
                        },
                        None => none,
                    }
                }
            },
            Button::Right => {
                self.capture(x, y);
                none
            },
            Button::Other => none,
        }
    }

    fn button_up(&mut self, button: Button, touch: bool) -> (r: Outcome)
        requires
            old(self).wf(),
        ensures
            final(self).wf(),
            old(self).after_button_up(*final(self), r, button, touch),
    {
        let none = Outcome::nothing();
        if touch {
            return none;
        }
        self.display_menu = false;
        if button == Button::Left && self.mode == Mode::Dragging {
            if self.width > 0 && self.height > 0 {
                let shift = self.view.complex_deltas(
                    self.width as i32,
                    self.height as i32,
                    self.drag.0,
                    self.drag.1,
                );
                if let Some(d) = shift {
                    if let Some(moved) = self.view.shifted_by(d) {
                        self.view = moved;
                    }
                }
            }
            self.dest_rect = full_rect_exec(self.width, self.height);
            self.drag = (0, 0);
            self.mode = Mode::Idle;
            Outcome { recompute: true, reset_relative: true, ..none }
        } else {
            none
        }
    }

    fn wheel(&mut self, amount: i32, px: i32, py: i32) -> (r: Outcome)
        requires
            old(self).wf(),
        ensures
            final(self).wf(),
            old(self).after_wheel(*final(self), r, amount as int, px as int, py as int),
    {
        let none = Outcome::nothing();
        if self.mode == Mode::Idle && self.width > 0 && self.height > 0 {
            let at = self.point_at_exec(px, py);
            let (n, d): (u64, u64) = if amount > 0 {
                (1, 2)
            } else {
                (2, 1)
            };
            match self.view.zoom(at, n, d) {
                Some(v) => {
                    self.view = v;
                    Outcome { recompute: true, ..none }
                },
                None => none,
            }
        } else {
            none
        }
    }

    fn gesture(&mut self, x: i32, y: i32, pinch: i32, fingers: u16)
        requires
            old(self).wf(),
        ensures
            final(self).wf(),
            old(self).after_gesture(*final(self), quiet(), x as int, y as int, pinch as int, fingers as int),
    {
        if fingers == 2 && self.mode != Mode::Dragging {
            if pinch > 0 {
                let f = PINCH_UNIT - 10 * (pinch as i64);
                let resized = Rect {
                    w: scaled_side_exec(self.src_rect.w, f),
                    h: scaled_side_exec(self.src_rect.h, f),
                    ..self.src_rect
                };
                self.src_rect = resized.centered_on(x, y);
                self.dest_rect = full_rect_exec(self.width, self.height);
            } else {
                let f = PINCH_UNIT + 10 * (pinch as i64);
                let resized = Rect {
                    w: scaled_side_exec(self.dest_rect.w, f),
                    h: scaled_side_exec(self.dest_rect.h, f),
                    ..self.dest_rect
                };
                self.src_rect = full_rect_exec(self.width, self.height);
                self.dest_rect = resized.centered_on(x, y);
            }
            self.mode = Mode::PinchZooming;
            self.pinch_at = (x, y);
        }
    }

    fn finger_up(&mut self) -> (r: Outcome)
        requires
            old(self).wf(),
        ensures
            final(self).wf(),
            old(self).after_finger_up(*final(self), r),
    {
        let none = Outcome::nothing();
        if self.mode == Mode::PinchZooming {
            if self.width > 0 && self.height > 0 {
                let at = self.point_at_exec(self.pinch_at.0, self.pinch_at.1);
                if let Some(v) = self.view.zoom(at, self.src_rect.w as u64, self.dest_rect.w as u64) {
                    self.view = v;
                }
            }
            self.src_rect = full_rect_exec(self.width, self.height);
            self.dest_rect = full_rect_exec(self.width, self.height);
            self.mode = Mode::Idle;
            Outcome { recompute: true, ..none }
        } else {
            none
        }
    }

    fn resize(&mut self, w: u32, h: u32)
        requires
            old(self).wf(),
        ensures
            final(self).wf(),
            old(self).after_resize(*final(self), recompute(), w as int, h as int),
    {
        self.width = clamp_size_exec(w);
        self.height = clamp_size_exec(h);
        self.src_rect = full_rect_exec(self.width, self.height);
        self.dest_rect = full_rect_exec(self.width, self.height);
    }

    /// Applies one input event, with `menu` laid out, and says what the host
    /// has to do.
    pub fn handle(&mut self, menu: &Menu, ev: InputEvent) -> (r: Outcome)
        requires
            old(self).wf(),
        ensures
            final(self).wf(),
            old(self).after(*final(self), r, *menu, ev),
    {
        let none = Outcome::nothing();
        match ev {
            InputEvent::Quit => Outcome { quit: true, ..none },
            InputEvent::KeyDown { key, x, y } => self.key_down(key, x, y),
            InputEvent::KeyUp { key } => {
                if key != Key::M {
                    self.display_menu = false;
                }
                none
            },
            InputEvent::PointerMotion { x, y, dx, dy, touch } => {
                self.motion(x, y, dx, dy, touch);
                none
            },
            InputEvent::ButtonDown { button, x, y, touch } => self.button_down(menu, button, x, y, touch),
            InputEvent::ButtonUp { button, touch } => self.button_up(button, touch),
            InputEvent::Wheel { amount, x, y } => self.wheel(amount, x, y),
            InputEvent::Gesture { x, y, pinch, fingers } => {
                self.gesture(x, y, pinch, fingers);
                none
            },
            InputEvent::FingerUp => self.finger_up(),
            InputEvent::Resized { w, h } => {
                self.resize(w, h);
                Outcome { recompute: true, ..none }
            },
        }
    }
}

/// The region shown at start.
fn initial_view_exec() -> (r: ComplexBBox)
    ensures
        r == initial_view(),
        r.wf(),
{
    ComplexBBox {
        ll: FixedComplex { re: -422212465065984, im: -281474976710656 },
        ur: FixedComplex { re: 140737488355328, im: 281474976710656 },
    }
}

/// `v` moved into `0..=MAX_SIDE`.
fn clamp_size_exec(v: u32) -> (r: u32)
    ensures
        r as int == clamp_size(v as int),
{
    if v > MAX_SIDE {
        MAX_SIDE
    } else {
        v
    }
}

} // verus!
