//! The menu overlay's content, layout and hit-testing.
use crate::input::Key;
use crate::rect::{clamp_pos, rect_of, Rect};
use vstd::prelude::*;
use vstd::string::StringSliceAdditionalSpecFns;

verus! {

/// Margin around the menu's entries, in pixels.
pub const PADDING: i64 = 10;

/// Where the menu is drawn on the surface, in pixels from the top left.
pub const MENU_OFFSET: i64 = 10;

/// Vertical gap between two entries, in pixels.
pub const ENTRY_GAP: i64 = 6;

/// The keys of the menu's entries, top to bottom.
pub open spec fn menu_keys() -> Seq<Option<Key>> {
    seq![Some(Key::F), Some(Key::C), Some(Key::M), Some(Key::Q), Some(Key::A)]
}

/// The menu's entries: a label, with `_` before the letter of its key, and
/// the key that the entry stands for.
pub fn menu_items() -> (r: Vec<(&'static str, Option<Key>)>)
    ensures
        r.len() == 5,
        r@[0].0@ == "_Fullscreen"@ && r@[0].1 == Some(Key::F),
        r@[1].0@ == "Display _Coordinates"@ && r@[1].1 == Some(Key::C),
        r@[2].0@ == "_Menu"@ && r@[2].1 == Some(Key::M),
        r@[3].0@ == "_Quit"@ && r@[3].1 == Some(Key::Q),
        r@[4].0@ == "_About"@ && r@[4].1 == Some(Key::A),
        forall|i: int| 0 <= i < 5 ==> #[trigger] r@[i].1 == menu_keys()[i],
{
    vec![
        ("_Fullscreen", Some(Key::F)),
        ("Display _Coordinates", Some(Key::C)),
        ("_Menu", Some(Key::M)),
        ("_Quit", Some(Key::Q)),
        ("_About", Some(Key::A)),
    ]
}

/// The usage hints shown under the menu's entries.
pub fn hints() -> (r: Vec<&'static str>)
    ensures
        r.len() == 11,
        r@[0]@ == "_________________________"@,
        r@[1]@ == "Zoom:"@,
        r@[2]@ == "  Scroll Wheel"@,
        r@[3]@ == "  +,-"@,
        r@[4]@ == "  Touch Pinch"@,
        r@[5]@ == "Left Mouse Button -> Pan"@,
        r@[6]@ == "Save Orbit:"@,
        r@[7]@ == "  Right Mouse Button"@,
        r@[8]@ == "  Spacebar"@,
        r@[9]@ == "  Touch double tap"@,
        r@[10]@ == "Arrow Keys -> Move cursor"@,
{
    vec![
        "_________________________",
        "Zoom:",
        "  Scroll Wheel",
        "  +,-",
        "  Touch Pinch",
        "Left Mouse Button -> Pan",
        "Save Orbit:",
        "  Right Mouse Button",
        "  Spacebar",
        "  Touch double tap",
        "Arrow Keys -> Move cursor",
    ]
}

/// The about text.
pub fn about() -> (r: Vec<&'static str>)
    ensures
        r.len() == 12,
        r@[0]@ == "Orbits --"@,
        r@[1]@ == "  A Mandelbrot set investigation tool"@,
        r@[2]@ == "  https://escriben.org"@,
        r@[3]@ == "  "@,
        r@[4]@ == "  Made availble under the GPLv3 license"@,
        r@[5]@ == "  "@,
        r@[6]@ == "  Source code can be found at:"@,
        r@[7]@ == "    https://github.com/gregbuchholz/orbits"@,
        r@[8]@ == "  "@,
        r@[9]@ == "  by Greg Buchholz <greg.buchholz@ymail.com>"@,
        r@[10]@ == "  (c) 2021"@,
        r@[11]@ == "  "@,
{
    vec![
        "Orbits --",
        "  A Mandelbrot set investigation tool",
        "  https://escriben.org",
        "  ",
        "  Made availble under the GPLv3 license",
        "  ",
        "  Source code can be found at:",
        "    https://github.com/gregbuchholz/orbits",
        "  ",
        "  by Greg Buchholz <greg.buchholz@ymail.com>",
        "  (c) 2021",
        "  ",
    ]
}

/// The on-screen area of entry `i`, whose label measures `w` by `h`: entries
/// stack downward, `h + 6` pixels apart, inside the menu's margin.
pub open spec fn entry_rect(i: int, w: int, h: int) -> Rect {
    rect_of(
        PADDING + MENU_OFFSET,
        clamp_pos(i * (h + ENTRY_GAP) + PADDING) + MENU_OFFSET,
        w,
        h,
    )
}

/// Button `i` is the first whose area holds `(x, y)`.
pub open spec fn is_first_hit(b: Seq<(Option<Key>, Rect)>, x: int, y: int, i: int) -> bool {
    &&& 0 <= i < b.len()
    &&& b[i].1.contains(x, y)
    &&& forall|j: int| 0 <= j < i ==> !(#[trigger] b[j]).1.contains(x, y)
}

/// The index of the first button whose area holds `(x, y)`, if any.
pub open spec fn first_hit(b: Seq<(Option<Key>, Rect)>, x: int, y: int) -> Option<int> {
    if exists|i: int| is_first_hit(b, x, y, i) {
        Some(choose|i: int| is_first_hit(b, x, y, i))
    } else {
        None
    }
}

/// The key of the entry under `(x, y)`, if there is one and it has a key.
pub open spec fn menu_choice(m: Menu, x: int, y: int) -> Option<Key> {
    match first_hit(m.buttons@, x, y) {
        Some(i) => m.buttons@[i].0,
        None => None,
    }
}

/// The menu's layout: one button per entry, with the entry's key and the
/// on-screen area that selects it, and the area of the whole menu.
pub struct Menu {
    pub buttons: Vec<(Option<Key>, Rect)>,
    pub offset_rect: Rect,
}

impl Menu {
    /// Lays the menu out from the size of each entry's rendered label and the
    /// size of the rendered menu; entries beyond either list are left out.
    pub fn init(label_sizes: &Vec<(u32, u32)>, menu_w: u32, menu_h: u32) -> (r: Menu)
        ensures
            r.buttons.len() == if label_sizes.len() < 5 {
                label_sizes.len() as int
            } else {
                5
            },
            forall|i: int|
                0 <= i < r.buttons.len() ==> #[trigger] r.buttons@[i] == (
                    menu_keys()[i],
                    entry_rect(i, label_sizes@[i].0 as int, label_sizes@[i].1 as int),
                ),
            r.offset_rect == rect_of(MENU_OFFSET as int, MENU_OFFSET as int, menu_w as int, menu_h as int),
    {
        let items = menu_items();
        let mut buttons: Vec<(Option<Key>, Rect)> = Vec::new();
        let mut i: usize = 0;
        while i < items.len() && i < label_sizes.len()
            invariant
                forall|j: int| 0 <= j < 5 ==> #[trigger] items@[j].1 == menu_keys()[j],
                items.len() == 5,
                i <= 5,
                i <= label_sizes.len(),
                buttons.len() == i,
                forall|j: int|
                    0 <= j < i ==> #[trigger] buttons@[j] == (
                        menu_keys()[j],
                        entry_rect(j, label_sizes@[j].0 as int, label_sizes@[j].1 as int),
                    ),
            decreases 5 - i,
        {
            let (w, h) = label_sizes[i];
            assert((i as int) * ((h as int) + ENTRY_GAP) <= 5 * 0x1_0000_0010) by (nonlinear_arith)
                requires
                    0 <= i <= 5,
                    0 <= h <= 0xffff_ffff,
            ;
            let top = Rect::new(0, (i as i64) * ((h as i64) + ENTRY_GAP) + PADDING, 1, 1).y;
            let area = Rect::new(PADDING + MENU_OFFSET, (top as i64) + MENU_OFFSET, w as i64, h as i64);
            buttons.push((items[i].1, area));
            i = i + 1;
        }
        Menu { buttons, offset_rect: Rect::new(MENU_OFFSET, MENU_OFFSET, menu_w as i64, menu_h as i64) }
    }

    /// The index of the first button whose area holds `(x, y)`, if any.
    pub fn selected(&self, x: i32, y: i32) -> (r: Option<usize>)
        ensures
            match r {
                Some(i) => first_hit(self.buttons@, x as int, y as int) == Some(i as int),
                None => first_hit(self.buttons@, x as int, y as int) == None::<int>,
            },
    {
        let mut i: usize = 0;
        while i < self.buttons.len()
            invariant
                i <= self.buttons.len(),
                forall|j: int| 0 <= j < i ==> !(#[trigger] self.buttons@[j]).1.contains(x as int, y as int),
            decreases self.buttons.len() - i,
        {
            if self.buttons[i].1.contains_point(x, y) {
                proof {
                    let b = self.buttons@;
                    assert(is_first_hit(b, x as int, y as int, i as int));
                    let k = choose|k: int| is_first_hit(b, x as int, y as int, k);
                    if k < i {
                        assert(!b[k].1.contains(x as int, y as int));
                    } else if k > i {
                        assert(!b[i as int].1.contains(x as int, y as int));
                    }
                }
                return Some(i);
            }
            i = i + 1;
        }
        None
    }
}

/// The byte that marks the letter of an entry's key.
pub const MARK: u8 = 95;

/// The byte drawn under unmarked letters.
pub const SPACE: u8 = 32;

/// `b` without its marks.
pub open spec fn strip_marks(b: Seq<u8>) -> Seq<u8>
    decreases b.len(),
{
    if b.len() == 0 {
        seq![]
    } else if b.last() == MARK {
        strip_marks(b.drop_last())
    } else {
        strip_marks(b.drop_last()).push(b.last())
    }
}

/// How many marks `b` holds.
pub open spec fn count_marks(b: Seq<u8>) -> nat
    decreases b.len(),
{
    if b.len() == 0 {
        0
    } else if b.last() == MARK {
        count_marks(b.drop_last()) + 1
    } else {
        count_marks(b.drop_last())
    }
}

/// A mark where `b` has one, a space elsewhere.
pub open spec fn mark_line(b: Seq<u8>) -> Seq<u8> {
    b.map_values(|c: u8| if c == MARK { MARK } else { SPACE })
}

/// The text of a label and the line drawn over it: the label without its
/// mark, and a line as long as that text with a mark under the marked
/// letter and spaces elsewhere. `None` where more than one letter is marked.
pub fn label_parts(message: &str) -> (r: Option<(Vec<u8>, Vec<u8>)>)
    ensures
        r is Some <==> count_marks(message.spec_bytes()) <= 1,
        r matches Some(parts) ==> parts.0@ == strip_marks(message.spec_bytes()) && parts.1@
            == mark_line(message.spec_bytes()).take(strip_marks(message.spec_bytes()).len() as int),
{
    let b = message.as_bytes();
    let ghost bs = message.spec_bytes();
    let mut text: Vec<u8> = Vec::new();
    let mut line: Vec<u8> = Vec::new();
    let mut marks: usize = 0;
    let mut i: usize = 0;
    assert(bs.take(0) =~= seq![]);
    while i < b.len()
        invariant
            b@ == bs,
            i <= b.len(),
            text@ == strip_marks(bs.take(i as int)),
            marks == count_marks(bs.take(i as int)),
            marks <= i,
            text.len() <= i,
            line.len() == i,
            line@ == mark_line(bs.take(i as int)),
        decreases b.len() - i,
    {
        let c = b[i];
        assert(bs.take(i + 1).drop_last() =~= bs.take(i as int));
        if c == MARK {
            marks = marks + 1;
            line.push(MARK);
        } else {
            text.push(c);
            line.push(SPACE);
        }
        i = i + 1;
        assert(line@ =~= mark_line(bs.take(i as int)));
    }
    assert(bs.take(i as int) =~= bs);
    if marks > 1 {
        return None;
    }
    line.truncate(text.len());
    assert(line@ =~= mark_line(bs).take(text.len() as int));
    Some((text, line))
}

} // verus!
