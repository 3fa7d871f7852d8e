//! Input events, abstracted from the windowing layer.
use vstd::prelude::*;

verus! {

/// The keys that the explorer responds to.
#[derive(Clone, Copy, PartialEq, Eq, Structural, Debug)]
pub enum Key {
    /// Quit.
    Q,
    /// Toggle the coordinate readout.
    C,
    /// Double the iteration budget.
    I,
    /// Toggle fullscreen.
    F,
    /// Leave fullscreen.
    Escape,
    /// Reset the view.
    Home,
    /// Move the pointer one pixel right.
    Right,
    /// Move the pointer one pixel left.
    Left,
    /// Move the pointer one pixel up.
    Up,
    /// Move the pointer one pixel down.
    Down,
    /// Toggle the menu.
    M,
    /// Capture the orbit under the pointer.
    Space,
    /// Show the about text.
    A,
    /// Any other key.
    Other,
}

/// Pointer buttons.
#[derive(Clone, Copy, PartialEq, Eq, Structural, Debug)]
pub enum Button {
    Left,
    Right,
    Other,
}

/// One input event. Pointer positions are in pixels; `touch` marks pointer
/// events synthesised from touch input, which are ignored.
#[derive(Clone, Copy, PartialEq, Eq, Structural, Debug)]
pub enum InputEvent {
    Quit,
    /// A key went down while the pointer was at `(x, y)`.
    KeyDown { key: Key, x: i32, y: i32 },
    KeyUp { key: Key },
    /// The pointer moved to `(x, y)`, by `(dx, dy)` since the last report.
    PointerMotion { x: i32, y: i32, dx: i32, dy: i32, touch: bool },
    ButtonDown { button: Button, x: i32, y: i32, touch: bool },
    ButtonUp { button: Button, touch: bool },
    /// Scrolling by `amount` (positive: away from the user) with the pointer
    /// at `(x, y)`.
    Wheel { amount: i32, x: i32, y: i32 },
    /// A multi-finger gesture centred on pixel `(x, y)`; `pinch` is the
    /// change of finger distance in millionths of the surface diagonal,
    /// positive when the fingers spread.
    Gesture { x: i32, y: i32, pinch: i32, fingers: u16 },
    /// The fingers were lifted.
    FingerUp,
    /// The drawable surface now measures `w` by `h` pixels.
    Resized { w: u32, h: u32 },
}

} // verus!
