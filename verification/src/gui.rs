//! Core of the retained-layout GUI: screen points and rectangles, the input
//! event tracker and the layout step that hands out space to widgets.
//!
//! Coordinates are bytes (the screen is 256 by 192); the arithmetic helpers on
//! points saturate at the ends of that range.
use vstd::prelude::*;

verus! {

/// `a + b`, held at 255.
pub open spec fn sat_add(a: u8, b: u8) -> u8 {
    if a + b > 255 {
        255
    } else {
        (a + b) as u8
    }
}

/// `a - b`, held at 0.
pub open spec fn sat_sub(a: u8, b: u8) -> u8 {
    if a < b {
        0
    } else {
        (a - b) as u8
    }
}

fn add_sat(a: u8, b: u8) -> (r: u8)
    ensures
        r == sat_add(a, b),
{
    if a > 255 - b {
        255
    } else {
        a + b
    }
}

fn sub_sat(a: u8, b: u8) -> (r: u8)
    ensures
        r == sat_sub(a, b),
{
    if a < b {
        0
    } else {
        a - b
    }
}

/// A point on the screen, or a size.
#[derive(Debug, Clone, Copy, PartialEq, Eq, Structural)]
pub struct Vec2 {
    pub x: u8,
    pub y: u8,
}

impl Vec2 {
    /// The point `(x, y)`.
    pub fn pos2(x: u8, y: u8) -> (v: Self)
        ensures
            v.x == x,
            v.y == y,
    {
        Self { x, y }
    }

    /// The origin.
    pub fn zero() -> (v: Self)
        ensures
            v.x == 0,
            v.y == 0,
    {
        Self { x: 0, y: 0 }
    }

    /// The horizontal offset `x`.
    pub fn only_x(x: u8) -> (v: Self)
        ensures
            v.x == x,
            v.y == 0,
    {
        Self { x, y: 0 }
    }

    /// The vertical offset `y`.
    pub fn only_y(y: u8) -> (v: Self)
        ensures
            v.x == 0,
            v.y == y,
    {
        Self { x: 0, y }
    }

    /// Componentwise minimum.
    pub open spec fn spec_min(self, other: Self) -> Self {
        Vec2 {
            x: if self.x <= other.x {
                self.x
            } else {
                other.x
            },
            y: if self.y <= other.y {
                self.y
            } else {
                other.y
            },
        }
    }

    /// Componentwise maximum.
    pub open spec fn spec_max(self, other: Self) -> Self {
        Vec2 {
            x: if self.x >= other.x {
                self.x
            } else {
                other.x
            },
            y: if self.y >= other.y {
                self.y
            } else {
                other.y
            },
        }
    }

    /// Componentwise minimum.
    pub fn min(self, other: Self) -> (v: Self)
        ensures
            v == self.spec_min(other),
    {
        Self::pos2(
            if self.x <= other.x {
                self.x
            } else {
                other.x
            },
            if self.y <= other.y {
                self.y
            } else {
                other.y
            },
        )
    }

    /// Componentwise maximum.
    pub fn max(self, other: Self) -> (v: Self)
        ensures
            v == self.spec_max(other),
    {
        Self::pos2(
            if self.x >= other.x {
                self.x
            } else {
                other.x
            },
            if self.y >= other.y {
                self.y
            } else {
                other.y
            },
        )
    }

    /// Componentwise sum, held at the screen's edge.
    pub open spec fn spec_plus(self, other: Self) -> Self {
        Vec2 { x: sat_add(self.x, other.x), y: sat_add(self.y, other.y) }
    }

    /// Componentwise difference, held at zero.
    pub open spec fn spec_minus(self, other: Self) -> Self {
        Vec2 { x: sat_sub(self.x, other.x), y: sat_sub(self.y, other.y) }
    }

    /// Componentwise sum, held at the screen's edge.
    pub fn plus(self, other: Self) -> (v: Self)
        ensures
            v == self.spec_plus(other),
    {
        Self::pos2(add_sat(self.x, other.x), add_sat(self.y, other.y))
    }

    /// Componentwise difference, held at zero.
    pub fn minus(self, other: Self) -> (v: Self)
        ensures
            v == self.spec_minus(other),
    {
        Self::pos2(sub_sat(self.x, other.x), sub_sat(self.y, other.y))
    }
}

/// An axis-aligned rectangle given by two corners.
#[derive(Debug, Clone, Copy, PartialEq, Eq, Structural)]
pub struct Rect {
    pub min: Vec2,
    pub max: Vec2,
}

/// Width of the screen in points, less one.
pub const SCREEN_MAX_X: u8 = 255;
/// Height of the screen in points, less one.
pub const SCREEN_MAX_Y: u8 = 191;

impl Rect {
    /// The corners are ordered: `min` is above and left of `max`.
    pub open spec fn normalized(self) -> bool {
        self.min.x <= self.max.x && self.min.y <= self.max.y
    }

    /// The point lies in the rectangle, edges included.
    pub open spec fn holds(self, p: Vec2) -> bool {
        self.min.x <= p.x <= self.max.x && self.min.y <= p.y <= self.max.y
    }

    /// The rectangle spanned by two points, whatever their order.
    pub open spec fn spec_from_two_pos(a: Vec2, b: Vec2) -> Rect {
        Rect { min: a.spec_min(b), max: a.spec_max(b) }
    }

    /// The rectangle spanned by two points, whatever their order.
    pub fn from_two_pos(a: Vec2, b: Vec2) -> (r: Self)
        ensures
            r == Self::spec_from_two_pos(a, b),
    {
        Self { min: a.min(b), max: a.max(b) }
    }

    /// The overlap test as the library performs it: each rectangle lies
    /// strictly beyond the other on both axes.
    pub open spec fn spec_intersects(self, other: Self) -> bool {
        &&& self.min.x > other.max.x
        &&& other.min.x > self.max.x
        &&& self.min.y > other.max.y
        &&& other.min.y > self.max.y
    }

    /// The overlap test as the library performs it.
    pub fn intersects(self, other: Self) -> (b: bool)
        ensures
            b == self.spec_intersects(other),
    {
        self.min.x > other.max.x && other.min.x > self.max.x && self.min.y > other.max.y
            && other.min.y > self.max.y
    }

    /// The whole screen.
    pub fn screen() -> (r: Self)
        ensures
            r.min == (Vec2 { x: 0, y: 0 }),
            r.max == (Vec2 { x: SCREEN_MAX_X, y: SCREEN_MAX_Y }),
    {
        Self { min: Vec2::pos2(0, 0), max: Vec2::pos2(SCREEN_MAX_X, SCREEN_MAX_Y) }
    }

    /// Horizontal extent, zero for an unordered rectangle.
    pub open spec fn spec_width(self) -> u8 {
        sat_sub(self.max.x, self.min.x)
    }

    /// Vertical extent, zero for an unordered rectangle.
    pub open spec fn spec_height(self) -> u8 {
        sat_sub(self.max.y, self.min.y)
    }

    /// Horizontal extent.
    pub fn width(&self) -> (w: u8)
        ensures
            w == self.spec_width(),
    {
        sub_sat(self.max.x, self.min.x)
    }

    /// Vertical extent.
    pub fn height(&self) -> (h: u8)
        ensures
            h == self.spec_height(),
    {
        sub_sat(self.max.y, self.min.y)
    }

    /// The rectangle moved by `by`.
    pub open spec fn spec_translate(self, by: Vec2) -> Rect {
        Rect { min: self.min.spec_plus(by), max: self.max.spec_plus(by) }
    }

    /// The rectangle moved by `by`.
    pub fn translate(self, by: Vec2) -> (r: Self)
        ensures
            r == self.spec_translate(by),
    {
        Self { min: self.min.plus(by), max: self.max.plus(by) }
    }

    /// The rectangle with its right edge moved to give it width `w`.
    pub open spec fn spec_set_width(self, w: u8) -> Rect {
        Rect { min: self.min, max: Vec2 { x: sat_add(self.min.x, w), y: self.max.y } }
    }

    /// The rectangle with its bottom edge moved to give it height `h`.
    pub open spec fn spec_set_height(self, h: u8) -> Rect {
        Rect { min: self.min, max: Vec2 { x: self.max.x, y: sat_add(self.min.y, h) } }
    }

    /// The rectangle with its right edge moved to give it width `w`.
    pub fn set_width(self, w: u8) -> (r: Self)
        ensures
            r == self.spec_set_width(w),
    {
        Self { min: self.min, max: Vec2::pos2(add_sat(self.min.x, w), self.max.y) }
    }

    /// The rectangle with its bottom edge moved to give it height `h`.
    pub fn set_height(self, h: u8) -> (r: Self)
        ensures
            r == self.spec_set_height(h),
    {
        Self { min: self.min, max: Vec2::pos2(self.max.x, add_sat(self.min.y, h)) }
    }

    /// The lower left corner.
    pub fn bottom_left(&self) -> (p: Vec2)
        ensures
            p == (Vec2 { x: self.min.x, y: self.max.y }),
    {
        Vec2::pos2(self.min.x, self.max.y)
    }

    /// The upper right corner.
    pub fn top_right(&self) -> (p: Vec2)
        ensures
            p == (Vec2 { x: self.max.x, y: self.min.y }),
    {
        Vec2::pos2(self.max.x, self.min.y)
    }
}

/// The rectangle spanned by two points is ordered, holds both points, and does
/// not depend on the order in which they are given.
pub proof fn law_from_two_pos_spans(a: Vec2, b: Vec2)
    ensures
        Rect::spec_from_two_pos(a, b).normalized(),
        Rect::spec_from_two_pos(a, b).holds(a),
        Rect::spec_from_two_pos(a, b).holds(b),
        Rect::spec_from_two_pos(a, b) == Rect::spec_from_two_pos(b, a),
{
}

/// The overlap test gives the same answer with its arguments swapped.
pub proof fn law_intersects_symmetric(a: Rect, b: Rect)
    ensures
        a.spec_intersects(b) == b.spec_intersects(a),
{
}

/// The overlap test as written never holds of two ordered rectangles: each
/// would have to lie beyond the other.
pub proof fn law_intersects_never_on_ordered(a: Rect, b: Rect)
    requires
        a.normalized(),
        b.normalized(),
    ensures
        !a.spec_intersects(b),
{
}

/// Button A.
pub const BUTTON_A: u16 = 1 << 0;
/// Button B.
pub const BUTTON_B: u16 = 1 << 1;
/// Select.
pub const BUTTON_SELECT: u16 = 1 << 2;
/// Start.
pub const BUTTON_START: u16 = 1 << 3;
/// D-pad right.
pub const BUTTON_RIGHT: u16 = 1 << 4;
/// D-pad left.
pub const BUTTON_LEFT: u16 = 1 << 5;
/// D-pad up.
pub const BUTTON_UP: u16 = 1 << 6;
/// D-pad down.
pub const BUTTON_DOWN: u16 = 1 << 7;
/// Shoulder R.
pub const BUTTON_R: u16 = 1 << 8;
/// Shoulder L.
pub const BUTTON_L: u16 = 1 << 9;
/// Button X.
pub const BUTTON_X: u16 = 1 << 10;
/// Button Y.
pub const BUTTON_Y: u16 = 1 << 11;
/// The pen touches the screen.
pub const BUTTON_PEN: u16 = 1 << 12;
/// The lid is closed.
pub const BUTTON_HINGE: u16 = 1 << 13;
/// Every button the set knows of.
pub const BUTTONS_ALL: u16 = 0x3FFF;

/// A set of buttons, one bit each.
#[derive(Debug, Clone, Copy, PartialEq, Eq, Structural)]
pub struct Buttons {
    pub bits: u16,
}

impl Buttons {
    /// The buttons not in the set, among those the set knows of.
    pub open spec fn spec_complement(self) -> Self {
        Buttons { bits: !self.bits & BUTTONS_ALL }
    }

    /// The buttons not in the set, among those the set knows of.
    pub fn complement(&self) -> (c: Self)
        ensures
            c == self.spec_complement(),
    {
        Buttons { bits: !self.bits & BUTTONS_ALL }
    }

    /// No button.
    pub fn empty() -> (b: Self)
        ensures
            b.bits == 0,
    {
        Self { bits: 0 }
    }

    /// The set with exactly these bits.
    pub fn from_bits_retain(bits: u16) -> (b: Self)
        ensures
            b.bits == bits,
    {
        Self { bits }
    }

    /// Every button of `other` is in the set.
    pub open spec fn spec_contains(self, other: Self) -> bool {
        self.bits & other.bits == other.bits
    }

    /// Every button of `other` is in the set.
    pub fn contains(&self, other: Self) -> (r: bool)
        ensures
            r == self.spec_contains(other),
    {
        self.bits & other.bits == other.bits
    }
}

/// The input state the GUI reacts to: the buttons held in this frame and the
/// last, and where the pen last touched.
#[derive(Debug, Clone, Copy)]
pub struct Events {
    pub buttons_now: Buttons,
    pub buttons_then: Buttons,
    pub last_touch_coord: Vec2,
    pub other_last_touch_coord: Vec2,
}

impl Events {
    /// Nothing held, both touch points at the origin.
    pub fn new() -> (e: Self)
        ensures
            e.buttons_now.bits == 0,
            e.buttons_then.bits == 0,
            e.last_touch_coord == (Vec2 { x: 0, y: 0 }),
            e.other_last_touch_coord == (Vec2 { x: 0, y: 0 }),
    {
        Self {
            buttons_now: Buttons::empty(),
            buttons_then: Buttons::empty(),
            last_touch_coord: Vec2::zero(),
            other_last_touch_coord: Vec2::zero(),
        }
    }

    /// All of `buttons` went down since the last update.
    pub open spec fn spec_keys_pressed(self, buttons: Buttons) -> bool {
        (self.buttons_now.bits & self.buttons_then.spec_complement().bits) & buttons.bits == buttons.bits
    }

    /// All of `buttons` came up since the last update.
    pub open spec fn spec_keys_released(self, buttons: Buttons) -> bool {
        (self.buttons_then.bits & self.buttons_now.spec_complement().bits) & buttons.bits == buttons.bits
    }

    /// All of `buttons` went down since the last update.
    pub fn keys_pressed(&self, buttons: Buttons) -> (r: bool)
        ensures
            r == self.spec_keys_pressed(buttons),
    {
        (self.buttons_now.bits & self.buttons_then.complement().bits) & buttons.bits == buttons.bits
    }

    /// All of `buttons` came up since the last update.
    pub fn keys_released(&self, buttons: Buttons) -> (r: bool)
        ensures
            r == self.spec_keys_released(buttons),
    {
        (self.buttons_then.bits & self.buttons_now.complement().bits) & buttons.bits == buttons.bits
    }

    /// The pen touches the screen now.
    pub fn pen_down(&self) -> (r: bool)
        ensures
            r == self.buttons_now.spec_contains(Buttons { bits: BUTTON_PEN }),
    {
        self.buttons_now.contains(Buttons::from_bits_retain(BUTTON_PEN))
    }

    /// Where the pen last touched the screen.
    pub fn last_known_touch_point(&self) -> (p: Vec2)
        ensures
            p == self.last_touch_coord,
    {
        self.last_touch_coord
    }

    /// Takes the buttons held in a new frame and, while the pen is down, its
    /// position.
    pub fn update(&mut self, buttons: Buttons, touch_coord: Vec2)
        ensures
            final(self).buttons_then == old(self).buttons_now,
            final(self).buttons_now == buttons,
            buttons.spec_contains(Buttons { bits: BUTTON_PEN }) ==> {
                &&& final(self).other_last_touch_coord == old(self).last_touch_coord
                &&& final(self).last_touch_coord == touch_coord
            },
            !buttons.spec_contains(Buttons { bits: BUTTON_PEN }) ==> {
                &&& final(self).other_last_touch_coord == old(self).other_last_touch_coord
                &&& final(self).last_touch_coord == old(self).last_touch_coord
            },
    {
        self.buttons_then = self.buttons_now;
        self.buttons_now = buttons;
        if buttons.contains(Buttons::from_bits_retain(BUTTON_PEN)) {
            self.other_last_touch_coord = self.last_touch_coord;
            self.last_touch_coord = touch_coord;
        }
    }
}

/// No button set is at once newly pressed and newly released, but the empty
/// one.
pub proof fn law_pressed_and_released_exclusive(e: Events, buttons: Buttons)
    requires
        e.spec_keys_pressed(buttons),
        e.spec_keys_released(buttons),
    ensures
        buttons.bits == 0,
{
    let now = e.buttons_now.bits;
    let then = e.buttons_then.bits;
    let b = buttons.bits;
    assert((now & (!then & 0x3FFFu16)) & b == b && (then & (!now & 0x3FFFu16)) & b == b ==> b == 0)
        by (bit_vector);
}

/// After an update, a button the set knows of counts as pressed exactly when it
/// is held now and was not held in the frame before.
pub proof fn law_update_pressed(e: Events, next: Events, held: Buttons, key: u16)
    requires
        next.buttons_then == e.buttons_now,
        next.buttons_now == held,
        key < 14,
    ensures
        next.spec_keys_pressed(Buttons { bits: (1u16 << key) as u16 }) == (held.spec_contains(
            Buttons { bits: (1u16 << key) as u16 },
        ) && !e.buttons_now.spec_contains(Buttons { bits: (1u16 << key) as u16 })),
{
    let now = held.bits;
    let then = e.buttons_now.bits;
    assert(((now & (!then & 0x3FFFu16)) & (1u16 << key) == (1u16 << key)) == (now & (1u16 << key)
        == (1u16 << key) && !(then & (1u16 << key) == (1u16 << key)))) by (bit_vector)
        requires
            key < 14,
    ;
}

} // verus!
