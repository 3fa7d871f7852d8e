use orbits::fixed::{FixedComplex, ONE};
use orbits::input::{Button, InputEvent, Key};
use orbits::interaction::{Mode, Outcome, ViewState, INITIAL_ITERATIONS};
use orbits::menu::{about, hints, label_parts, menu_items, Menu};
use orbits::orbit::calc_orbits;
use orbits::rect::{Rect, MAX_SIDE};
use orbits::viewport::ComplexBBox;

fn fc(re: i64, im: i64) -> FixedComplex {
    FixedComplex { re, im }
}

fn initial() -> ComplexBBox {
    ComplexBBox { ll: fc(-3 * ONE / 2, -ONE), ur: fc(ONE / 2, ONE) }
}

fn quiet() -> Outcome {
    Outcome { quit: false, recompute: false, fullscreen: None, warp: None, reset_relative: false }
}

fn no_menu() -> Menu {
    Menu::init(&vec![], 250, 400)
}

fn key(k: Key) -> InputEvent {
    InputEvent::KeyDown { key: k, x: 10, y: 10 }
}

#[test]
fn starts_in_the_default_view() {
    let s = ViewState::new(800, 600);
    assert_eq!(s.view, initial());
    assert_eq!(s.iterations, INITIAL_ITERATIONS);
    assert_eq!(s.src_rect, Rect::new(0, 0, 800, 600));
    assert_eq!(s.dest_rect, Rect::new(0, 0, 800, 600));
    assert_eq!(s.mode, Mode::Idle);
    assert!(s.show_coords && !s.display_menu && !s.full_screen);
    assert!(s.saved_orbit.is_empty());
}

#[test]
fn drag_commit_shifts_real_axis() {
    let menu = no_menu();
    let mut s = ViewState::new(200, 200);
    let out = s.handle(&menu, InputEvent::ButtonDown { button: Button::Left, x: 100, y: 100, touch: false });
    assert_eq!(out, Outcome { reset_relative: true, ..quiet() });
    assert_eq!(s.mode, Mode::Dragging);
    s.handle(&menu, InputEvent::PointerMotion { x: 104, y: 100, dx: 4, dy: 0, touch: false });
    s.handle(&menu, InputEvent::PointerMotion { x: 110, y: 100, dx: 6, dy: 0, touch: false });
    assert_eq!(s.drag, (10, 0));
    assert_eq!(s.dest_rect, Rect::new(10, 0, 200, 200));
    assert_eq!(s.view, initial());
    let out = s.handle(&menu, InputEvent::ButtonUp { button: Button::Left, touch: false });
    assert_eq!(out, Outcome { recompute: true, reset_relative: true, ..quiet() });
    let tenth = ONE / 10;
    assert_eq!(s.view, ComplexBBox { ll: fc(-3 * ONE / 2 - tenth, -ONE), ur: fc(ONE / 2 - tenth, ONE) });
    assert_eq!(s.mode, Mode::Idle);
    assert_eq!(s.drag, (0, 0));
    assert_eq!(s.dest_rect, Rect::new(0, 0, 200, 200));
}

#[test]
fn touch_pointer_events_are_ignored() {
    let menu = no_menu();
    let mut s = ViewState::new(200, 200);
    let out = s.handle(&menu, InputEvent::ButtonDown { button: Button::Left, x: 1, y: 1, touch: true });
    assert_eq!(out, quiet());
    assert_eq!(s.mode, Mode::Idle);
}

#[test]
fn motion_updates_the_readout_position() {
    let menu = no_menu();
    let mut s = ViewState::new(200, 100);
    s.handle(&menu, InputEvent::PointerMotion { x: 150, y: 50, dx: 1, dy: 1, touch: false });
    assert_eq!(s.position, fc(0, 0));
    // outside the surface the pointer is taken at the nearest edge pixel
    s.handle(&menu, InputEvent::PointerMotion { x: -20, y: 0, dx: 1, dy: 1, touch: false });
    assert_eq!(s.position, fc(-3 * ONE / 2, ONE));
}

#[test]
fn wheel_zooms_about_the_pointer() {
    let menu = no_menu();
    let mut s = ViewState::new(200, 200);
    let out = s.handle(&menu, InputEvent::Wheel { amount: 1, x: 150, y: 100 });
    assert_eq!(out, Outcome { recompute: true, ..quiet() });
    assert_eq!(s.view, ComplexBBox { ll: fc(-3 * ONE / 4, -ONE / 2), ur: fc(ONE / 4, ONE / 2) });
    s.handle(&menu, InputEvent::Wheel { amount: -1, x: 150, y: 100 });
    assert_eq!(s.view, initial());
}

#[test]
fn iterations_double_and_reset() {
    let menu = no_menu();
    let mut s = ViewState::new(200, 200);
    assert_eq!(s.handle(&menu, key(Key::I)), Outcome { recompute: true, ..quiet() });
    s.handle(&menu, key(Key::I));
    assert_eq!(s.iterations, 200);
    s.handle(&menu, InputEvent::Wheel { amount: 1, x: 3, y: 3 });
    assert_ne!(s.view, initial());
    assert_eq!(s.handle(&menu, key(Key::Home)), Outcome { recompute: true, ..quiet() });
    assert_eq!(s.iterations, INITIAL_ITERATIONS);
    assert_eq!(s.view, initial());
}

#[test]
fn iterations_stop_doubling_before_overflow() {
    let menu = no_menu();
    let mut s = ViewState::new(20, 20);
    s.iterations = u32::MAX / 2 + 1;
    assert_eq!(s.handle(&menu, key(Key::I)), quiet());
    assert_eq!(s.iterations, u32::MAX / 2 + 1);
}

#[test]
fn keys_toggle_flags() {
    let menu = no_menu();
    let mut s = ViewState::new(20, 20);
    assert_eq!(s.handle(&menu, key(Key::Q)), Outcome { quit: true, ..quiet() });
    assert_eq!(s.handle(&menu, InputEvent::Quit), Outcome { quit: true, ..quiet() });
    s.handle(&menu, key(Key::C));
    assert!(!s.show_coords);
    assert_eq!(s.handle(&menu, key(Key::F)), Outcome { fullscreen: Some(true), ..quiet() });
    assert!(s.full_screen);
    assert_eq!(s.handle(&menu, key(Key::Escape)), Outcome { fullscreen: Some(false), ..quiet() });
    assert_eq!(s.handle(&menu, key(Key::Escape)), quiet());
    s.handle(&menu, key(Key::M));
    assert!(s.display_menu);
    s.handle(&menu, InputEvent::KeyUp { key: Key::M });
    assert!(s.display_menu);
    s.handle(&menu, InputEvent::KeyUp { key: Key::C });
    assert!(!s.display_menu);
}

#[test]
fn arrow_keys_move_the_pointer() {
    let menu = no_menu();
    let mut s = ViewState::new(20, 20);
    let at = |k| InputEvent::KeyDown { key: k, x: 5, y: 7 };
    assert_eq!(s.handle(&menu, at(Key::Right)).warp, Some((6, 7)));
    assert_eq!(s.handle(&menu, at(Key::Left)).warp, Some((4, 7)));
    assert_eq!(s.handle(&menu, at(Key::Up)).warp, Some((5, 6)));
    assert_eq!(s.handle(&menu, at(Key::Down)).warp, Some((5, 8)));
}

#[test]
fn capture_saves_the_orbit_under_the_pointer() {
    let menu = no_menu();
    let mut s = ViewState::new(200, 200);
    s.handle(&menu, InputEvent::KeyDown { key: Key::Space, x: 50, y: 100 });
    let c = s.view.screen_to_complex(50, 100, 200, 200);
    assert_eq!(c, fc(-ONE, 0));
    assert_eq!(s.saved_orbit, calc_orbits(c));
    s.handle(&menu, InputEvent::ButtonDown { button: Button::Right, x: 0, y: 0, touch: false });
    assert_eq!(s.saved_orbit, calc_orbits(fc(-3 * ONE / 2, ONE)));
    assert_eq!(s.live_orbit(0, 0), s.saved_orbit);
}

#[test]
fn pinch_previews_then_commits_zoom() {
    let menu = no_menu();
    let mut s = ViewState::new(200, 200);
    // fingers spread by 2% of the diagonal: the source shrinks to 80%
    let out = s.handle(&menu, InputEvent::Gesture { x: 100, y: 100, pinch: 20000, fingers: 2 });
    assert_eq!(out, quiet());
    assert_eq!(s.mode, Mode::PinchZooming);
    assert_eq!(s.src_rect, Rect::new(20, 20, 160, 160));
    assert_eq!(s.dest_rect, Rect::new(0, 0, 200, 200));
    let out = s.handle(&menu, InputEvent::FingerUp);
    assert_eq!(out, Outcome { recompute: true, ..quiet() });
    assert_eq!(s.mode, Mode::Idle);
    // centre (-0.5, 0) scaled by 160 / 200
    let v = s.view;
    assert_eq!(v.ll.re, -ONE / 2 + (-ONE * 4).div_euclid(5));
    assert_eq!(v.ur.re, -ONE / 2 + (ONE * 4) / 5);
    assert_eq!(s.src_rect, Rect::new(0, 0, 200, 200));
}

#[test]
fn pinch_inward_shrinks_destination() {
    let menu = no_menu();
    let mut s = ViewState::new(200, 200);
    s.handle(&menu, InputEvent::Gesture { x: 100, y: 100, pinch: -50000, fingers: 2 });
    assert_eq!(s.dest_rect, Rect::new(50, 50, 100, 100));
    s.handle(&menu, InputEvent::FingerUp);
    assert_eq!(s.view, ComplexBBox { ll: fc(-5 * ONE / 2, -2 * ONE), ur: fc(3 * ONE / 2, 2 * ONE) });
    // three fingers do nothing
    let before = s.view;
    s.handle(&menu, InputEvent::Gesture { x: 1, y: 1, pinch: 500, fingers: 3 });
    assert_eq!(s.mode, Mode::Idle);
    assert_eq!(s.handle(&menu, InputEvent::FingerUp), quiet());
    assert_eq!(s.view, before);
}

#[test]
fn resize_resets_previews() {
    let menu = no_menu();
    let mut s = ViewState::new(200, 200);
    s.handle(&menu, InputEvent::Gesture { x: 100, y: 100, pinch: 20000, fingers: 2 });
    let out = s.handle(&menu, InputEvent::Resized { w: 640, h: 480 });
    assert_eq!(out, Outcome { recompute: true, ..quiet() });
    assert_eq!((s.width, s.height), (640, 480));
    assert_eq!(s.src_rect, Rect::new(0, 0, 640, 480));
    assert_eq!(s.dest_rect, Rect::new(0, 0, 640, 480));
    s.handle(&menu, InputEvent::Resized { w: u32::MAX, h: 0 });
    assert_eq!((s.width, s.height), (MAX_SIDE, 0));
}

#[test]
fn empty_surface_ignores_pointer_work() {
    let menu = no_menu();
    let mut s = ViewState::new(0, 0);
    assert_eq!(s.handle(&menu, InputEvent::Wheel { amount: 1, x: 0, y: 0 }), quiet());
    s.handle(&menu, key(Key::Space));
    assert!(s.saved_orbit.is_empty());
    assert!(s.live_orbit(0, 0).is_empty());
}

#[test]
fn menu_click_acts_as_its_key() {
    let menu = Menu::init(&vec![(100, 20), (150, 20), (60, 20), (60, 20), (70, 20)], 250, 400);
    assert_eq!(menu.buttons.len(), 5);
    assert_eq!(menu.buttons[1], (Some(Key::C), Rect::new(20, 46, 150, 20)));
    assert_eq!(menu.offset_rect, Rect::new(10, 10, 250, 400));
    let mut s = ViewState::new(400, 400);
    s.handle(&menu, key(Key::M));
    assert!(s.display_menu);
    // "Display Coordinates" is the second entry, 26 pixels below the first
    s.handle(&menu, InputEvent::ButtonDown { button: Button::Left, x: 25, y: 50, touch: false });
    assert!(!s.display_menu);
    assert!(!s.show_coords);
    s.handle(&menu, key(Key::M));
    let out = s.handle(&menu, InputEvent::ButtonDown { button: Button::Left, x: 25, y: 25, touch: false });
    assert_eq!(out, Outcome { fullscreen: Some(true), ..quiet() });
    s.handle(&menu, key(Key::M));
    let out = s.handle(&menu, InputEvent::ButtonDown { button: Button::Left, x: 300, y: 300, touch: false });
    assert_eq!(out, quiet());
    assert!(!s.display_menu);
    assert_eq!(s.mode, Mode::Idle);
}

#[test]
fn menu_hit_testing() {
    let menu = Menu::init(&vec![(100, 20), (150, 20)], 250, 400);
    assert_eq!(menu.buttons.len(), 2);
    assert_eq!(menu.selected(20, 20), Some(0));
    assert_eq!(menu.selected(119, 39), Some(0));
    assert_eq!(menu.selected(120, 20), None);
    assert_eq!(menu.selected(20, 40), None);
    assert_eq!(menu.selected(20, 46), Some(1));
    assert_eq!(menu.selected(0, 0), None);
}

#[test]
fn menu_texts() {
    let items = menu_items();
    assert_eq!(items.len(), 5);
    assert_eq!(items[0], ("_Fullscreen", Some(Key::F)));
    assert_eq!(items[4], ("_About", Some(Key::A)));
    assert_eq!(hints().len(), 11);
    assert_eq!(hints()[1], "Zoom:");
    assert_eq!(about().len(), 12);
    assert_eq!(about()[0], "Orbits --");
}

#[test]
fn rect_clamps_and_contains() {
    let r = Rect::new(0, 0, 0, 0);
    assert_eq!((r.w, r.h), (1, 1));
    let r = Rect::new(i64::MIN, i64::MAX, i64::MAX, 5);
    assert_eq!((r.x, r.y, r.w, r.h), (-1073741824, 1073741823, MAX_SIDE, 5));
    let r = Rect::new(10, 10, 5, 5);
    assert!(r.contains_point(10, 10));
    assert!(r.contains_point(14, 14));
    assert!(!r.contains_point(15, 10));
    assert!(!r.contains_point(9, 12));
    assert_eq!(r.centered_on(0, 0), Rect::new(-2, -2, 5, 5));
}

#[test]
fn label_parts_strip_the_mark() {
    let (text, line) = label_parts("Display _Coordinates").unwrap();
    assert_eq!(text, b"Display Coordinates".to_vec());
    assert_eq!(line, b"        _          ".to_vec());
    let (text, line) = label_parts("_Quit").unwrap();
    assert_eq!((text, line), (b"Quit".to_vec(), b"_   ".to_vec()));
    assert_eq!(label_parts(""), Some((vec![], vec![])));
    assert_eq!(label_parts("a_b_c"), None);
}
