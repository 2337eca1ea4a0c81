//! The immediate-mode interaction core: which widget is focused, pressed or
//! released across frames, the layout that places widgets, and the buttons and
//! labels built on them.
//!
//! The drawing backend is outside the library: each frame starts from a
//! snapshot of its input state, and drawing results (the space a text took)
//! are handed in as values.
use vstd::prelude::*;
use crate::gui::{Vec2, Rect, sat_sub};
use crate::video::Color;

verus! {

/// Identifies a widget across frames.
#[derive(Debug, Clone, Copy, PartialEq, Eq, Structural)]
pub struct Id(pub u32);

impl Id {
    /// The first id of the base layer.
    pub fn start() -> (id: Id)
        ensures
            id.0 == 0,
    {
        Id(0)
    }

    /// The first id of a layer: the layer number in the top byte.
    pub fn from_layer(layer: u8) -> (id: Id)
        ensures
            id.0 == layer * 0x100_0000,
    {
        Id((layer as u32) * 0x100_0000)
    }

    /// The id after this one.
    pub open spec fn spec_successor(self) -> Id {
        Id(if self.0 == u32::MAX {
            0
        } else {
            (self.0 + 1) as u32
        })
    }

    /// Moves to the next id and returns it.
    pub fn next(&mut self) -> (id: Id)
        ensures
            id == old(self).spec_successor(),
            *final(self) == id,
    {
        let v: u32 = if self.0 == u32::MAX {
            0
        } else {
            self.0 + 1
        };
        *self = Id(v);
        Id(v)
    }
}

/// Interaction flag: the widget is pressed.
pub const SENSE_PRESSED: u8 = 1 << 0;
/// Interaction flag: the pen is over the widget.
pub const SENSE_HOVERED: u8 = 1 << 1;
/// Interaction flag: the widget is being dragged.
pub const SENSE_DRAGGED: u8 = 1 << 2;
/// Interaction flag: the widget is enabled.
pub const SENSE_ENABLED: u8 = 1 << 3;
/// Interaction flag: the widget has the keyboard focus.
pub const SENSE_FOCUSED: u8 = 1 << 4;
/// Interaction flag: the widget was released.
pub const SENSE_RELEASED: u8 = 1 << 5;

/// A set of interaction flags: what a widget listens to, or what happened to
/// it.
#[derive(Debug, Clone, Copy, PartialEq, Eq, Structural)]
pub struct Sense {
    pub bits: u8,
}

impl Sense {
    /// The set with exactly these bits.
    pub fn from_bits_retain(bits: u8) -> (s: Sense)
        ensures
            s.bits == bits,
    {
        Sense { bits }
    }

    /// What a clickable widget listens to: focus, press, release and hover.
    pub fn clickable() -> (s: Sense)
        ensures
            s.bits == SENSE_FOCUSED | SENSE_PRESSED | SENSE_RELEASED | SENSE_HOVERED,
    {
        Sense { bits: SENSE_FOCUSED | SENSE_PRESSED | SENSE_RELEASED | SENSE_HOVERED }
    }

    /// What a passive widget listens to: hover only.
    pub fn hovered() -> (s: Sense)
        ensures
            s.bits == SENSE_HOVERED,
    {
        Sense { bits: SENSE_HOVERED }
    }

    /// Some flag of `other` is set here too.
    pub fn intersects(&self, other: Sense) -> (r: bool)
        ensures
            r == (self.bits & other.bits != 0),
    {
        self.bits & other.bits != 0
    }

    /// Every flag of `other` is set here too.
    pub fn contains(&self, other: Sense) -> (r: bool)
        ensures
            r == (self.bits & other.bits == other.bits),
    {
        self.bits & other.bits == other.bits
    }
}

/// What a widget learns from one frame of interaction.
#[derive(Debug, Clone, Copy, PartialEq, Eq, Structural)]
pub struct Response {
    pub id: Id,
    pub rect: Rect,
    pub interact_rect: Rect,
    pub drag_delta: Vec2,
    pub stats: Sense,
}

/// The backend's input state for one frame, as the library asks for it.
#[derive(Debug, Clone, Copy, PartialEq, Eq, Structural)]
pub struct InputState {
    /// Where the pointer was last seen.
    pub pointer: Vec2,
    /// The pointer is down.
    pub pointer_down_active: bool,
    /// The pointer went down this frame.
    pub pointer_down_pressed: bool,
    /// The pointer came up this frame.
    pub pointer_down_released: bool,
    /// The pointer press is held.
    pub pointer_press_active: bool,
    /// The pointer press ended this frame.
    pub pointer_press_released: bool,
    /// The press of the focused widget is held.
    pub focused_press_active: bool,
    /// The press of the focused widget ended this frame.
    pub focused_press_released: bool,
    /// Move the focus forward: pressed this frame.
    pub focus_next_pressed: bool,
    /// Move the focus back: pressed this frame.
    pub focus_previous_pressed: bool,
}

/// Interaction state that lasts from frame to frame.
#[derive(Debug, Clone, Copy, PartialEq, Eq, Structural)]
pub struct Ctx {
    pub touchdown_pos: Option<Vec2>,
    pub pressed_response: Option<Id>,
    pub hovered_response: Option<Id>,
    pub focused_response: Option<Id>,
    pub released_response: Option<Id>,
    pub wants_repaint: bool,
}

/// One frame under construction: the state carried over from the previous
/// frame, what the widgets of this frame have reported so far, and the input.
#[derive(Debug, Clone, Copy, PartialEq, Eq, Structural)]
pub struct Frame {
    pub ctx: Ctx,
    pub input: InputState,
    pub availble_ground_space: Rect,
    pub pressed_response: Option<Id>,
    pub hovered_response: Option<Id>,
    pub focused_response: Option<Id>,
    pub released_response: Option<Id>,
    pub prev_focus: Option<Id>,
    pub next_focus: Option<Id>,
}

/// The overlap of two rectangles: the larger of the minimum corners and the
/// smaller of the maximum ones.
pub open spec fn spec_intersect(a: Rect, b: Rect) -> Rect {
    Rect { min: a.min.spec_max(b.min), max: a.max.spec_min(b.max) }
}

/// The overlap of two rectangles.
pub fn intersect(a: Rect, b: Rect) -> (r: Rect)
    ensures
        r == spec_intersect(a, b),
{
    Rect { min: a.min.max(b.min), max: a.max.min(b.max) }
}

/// The flags that the state carried over from the previous frame gives a
/// widget.
pub open spec fn spec_id_statistics(ctx: Ctx, id: Id) -> u8 {
    (if ctx.focused_response == Some(id) {
        SENSE_FOCUSED
    } else {
        0u8
    }) | (if ctx.pressed_response == Some(id) {
        SENSE_PRESSED
    } else {
        0u8
    }) | (if ctx.released_response == Some(id) {
        SENSE_RELEASED
    } else {
        0u8
    }) | (if ctx.hovered_response == Some(id) {
        SENSE_HOVERED
    } else {
        0u8
    })
}

/// The pen is down over the rectangle.
pub open spec fn spec_hovered(input: InputState, rect: Rect) -> bool {
    rect.holds(input.pointer) && input.pointer_down_active
}

/// The widget counts as pressed in this frame.
pub open spec fn spec_pressed(ctx: Ctx, input: InputState, rect: Rect, id: Id) -> bool {
    (ctx.focused_response == Some(id) && input.focused_press_active) || (spec_hovered(input, rect)
        && input.pointer_press_active)
}

/// The widget counts as released in this frame.
pub open spec fn spec_released(ctx: Ctx, input: InputState, id: Id) -> bool {
    (ctx.focused_response == Some(id) && input.focused_press_released) || (ctx.pressed_response
        == Some(id) && input.pointer_press_released)
}

impl Ctx {
    /// No widget known, no repaint asked for.
    pub fn new() -> (c: Self)
        ensures
            c.touchdown_pos is None,
            c.pressed_response is None,
            c.hovered_response is None,
            c.focused_response is None,
            c.released_response is None,
            !c.wants_repaint,
    {
        Ctx {
            touchdown_pos: None,
            pressed_response: None,
            hovered_response: None,
            focused_response: None,
            released_response: None,
            wants_repaint: false,
        }
    }

    /// Starts a frame on the backend's screen with its input; the pointer
    /// position is remembered when the pointer went down.
    pub fn start_frame(&mut self, input: InputState, screen: Rect) -> (f: Frame)
        ensures
            final(self).touchdown_pos == (if input.pointer_down_pressed {
                Some(input.pointer)
            } else {
                old(self).touchdown_pos
            }),
            final(self).pressed_response == old(self).pressed_response,
            final(self).hovered_response == old(self).hovered_response,
            final(self).focused_response == old(self).focused_response,
            final(self).released_response == old(self).released_response,
            final(self).wants_repaint == old(self).wants_repaint,
            f.ctx == *final(self),
            f.input == input,
            f.availble_ground_space == screen,
            f.pressed_response is None,
            f.hovered_response is None,
            f.focused_response is None,
            f.released_response is None,
            f.prev_focus is None,
            f.next_focus is None,
    {
        if input.pointer_down_pressed {
            self.touchdown_pos = Some(input.pointer);
        }
        Frame {
            ctx: *self,
            input,
            availble_ground_space: screen,
            pressed_response: None,
            hovered_response: None,
            focused_response: None,
            released_response: None,
            prev_focus: None,
            next_focus: None,
        }
    }

    /// Ends the backend's frame: the remembered pointer position is dropped
    /// when the pointer came up.
    pub fn end_frame(&mut self, input: InputState)
        ensures
            final(self).touchdown_pos == (if input.pointer_down_released {
                None
            } else {
                old(self).touchdown_pos
            }),
            final(self).pressed_response == old(self).pressed_response,
            final(self).hovered_response == old(self).hovered_response,
            final(self).focused_response == old(self).focused_response,
            final(self).released_response == old(self).released_response,
            final(self).wants_repaint == old(self).wants_repaint,
    {
        if input.pointer_down_released {
            self.touchdown_pos = None;
        }
    }

    /// The frame that starting a frame on `ctx` hands out.
    pub open spec fn started_frame(ctx: Ctx, input: InputState, screen: Rect) -> Frame {
        Frame {
            ctx: Ctx {
                touchdown_pos: if input.pointer_down_pressed {
                    Some(input.pointer)
                } else {
                    ctx.touchdown_pos
                },
                ..ctx
            },
            input,
            availble_ground_space: screen,
            pressed_response: None,
            hovered_response: None,
            focused_response: None,
            released_response: None,
            prev_focus: None,
            next_focus: None,
        }
    }

    /// Runs one frame: starts it, hands it to `f`, and closes it once `f` is
    /// done with it; the result is `f`'s.
    pub fn process_frame<R, T, F: FnOnce(&mut Frame, &mut T) -> R>(
        &mut self,
        input: InputState,
        screen: Rect,
        f: F,
        t: &mut T,
    ) -> (r: R)
        requires
            forall|fr: &mut Frame, tt: &mut T| f.requires((fr, tt)),
        ensures
            exists|fr: &mut Frame, tt: &mut T|
                #![trigger f.ensures((fr, tt), r)]
                *fr == Self::started_frame(*old(self), input, screen) && f.ensures((fr, tt), r)
                    && *old(t) == *tt && *final(t) == *final(tt)
                    && *final(self) == Self::finished_ctx(*final(fr)),
    {
        let mut frame = self.start_frame(input, screen);
        let r = f(&mut frame, t);
        self.finish_frame(frame);
        r
    }

    /// The focus the frame leaves behind: the focus-navigation inputs move it
    /// unless the focused widget is being pressed.
    pub open spec fn spec_next_focus(frame: Frame) -> Option<Id> {
        if !frame.input.focused_press_active && frame.input.focus_previous_pressed {
            frame.prev_focus
        } else if !frame.input.focused_press_active && frame.input.focus_next_pressed {
            frame.next_focus
        } else {
            frame.focused_response
        }
    }

    /// The state a closed frame leaves for the next one: the focus moves as
    /// asked, the remembered pointer position is dropped when the pointer came
    /// up, what the widgets reported is kept, and a repaint is asked for
    /// whenever that state changed.
    pub open spec fn finished_ctx(frame: Frame) -> Ctx {
        Ctx {
            touchdown_pos: if frame.input.pointer_down_released {
                None
            } else {
                frame.ctx.touchdown_pos
            },
            pressed_response: frame.pressed_response,
            hovered_response: frame.hovered_response,
            focused_response: Self::spec_next_focus(frame),
            released_response: frame.released_response,
            wants_repaint: frame.ctx.wants_repaint || frame.pressed_response
                != frame.ctx.pressed_response || frame.hovered_response
                != frame.ctx.hovered_response || Self::spec_next_focus(frame)
                != frame.ctx.focused_response || frame.released_response
                != frame.ctx.released_response,
        }
    }

    /// Closes a frame: what it leaves for the next frame becomes the state.
    pub fn finish_frame(&mut self, frame: Frame)
        ensures
            *final(self) == Self::finished_ctx(frame),
    {
        let mut focused_response = frame.focused_response;
        if !frame.input.focused_press_active {
            if frame.input.focus_next_pressed {
                focused_response = frame.next_focus;
            }
            if frame.input.focus_previous_pressed {
                focused_response = frame.prev_focus;
            }
        }
        *self = frame.ctx;
        self.end_frame(frame.input);
        if frame.pressed_response != self.pressed_response {
            self.pressed_response = frame.pressed_response;
            self.wants_repaint = true;
        }
        if frame.hovered_response != self.hovered_response {
            self.hovered_response = frame.hovered_response;
            self.wants_repaint = true;
        }
        if focused_response != self.focused_response {
            self.focused_response = focused_response;
            self.wants_repaint = true;
        }
        if frame.released_response != self.released_response {
            self.released_response = frame.released_response;
            self.wants_repaint = true;
        }
    }

    /// The next frame is due when new input arrived or a repaint is wanted.
    pub fn frame_due(&self, inputs_changed: bool) -> (r: bool)
        ensures
            r == (inputs_changed || self.wants_repaint),
    {
        inputs_changed || self.wants_repaint
    }
}

impl Frame {
    /// The flags that the previous frame's state gives the widget `id`.
    pub fn id_statistics(&self, id: Id) -> (s: Sense)
        ensures
            s.bits == spec_id_statistics(self.ctx, id),
    {
        let mut bits: u8 = 0;
        if Some(id) == self.ctx.focused_response {
            bits = bits | SENSE_FOCUSED;
        }
        if Some(id) == self.ctx.pressed_response {
            bits = bits | SENSE_PRESSED;
        }
        if Some(id) == self.ctx.released_response {
            bits = bits | SENSE_RELEASED;
        }
        if Some(id) == self.ctx.hovered_response {
            bits = bits | SENSE_HOVERED;
        }
        proof {
            let f = if self.ctx.focused_response == Some(id) { SENSE_FOCUSED } else { 0u8 };
            let p = if self.ctx.pressed_response == Some(id) { SENSE_PRESSED } else { 0u8 };
            let r = if self.ctx.released_response == Some(id) { SENSE_RELEASED } else { 0u8 };
            let h = if self.ctx.hovered_response == Some(id) { SENSE_HOVERED } else { 0u8 };
            assert(0u8 | f == f && (f | 0u8) == f && ((f | p) | 0u8) == f | p && (((f | p) | r)
                | 0u8) == (f | p) | r) by (bit_vector);
        }
        Sense { bits }
    }

    /// Asks for another frame after this one.
    pub fn request_repaint(&mut self)
        ensures
            *final(self) == (Frame { ctx: Ctx { wants_repaint: true, ..old(self).ctx }, ..*old(self) }),
    {
        self.ctx.wants_repaint = true;
    }

    /// The focus bookkeeping of this frame after a widget that is not focused
    /// and listens to `sense` has been seen.
    pub open spec fn spec_focus_candidates(self, id: Id, sense: Sense) -> (Option<Id>, Option<Id>) {
        if sense.bits & SENSE_FOCUSED != SENSE_FOCUSED {
            (self.prev_focus, self.next_focus)
        } else if self.ctx.focused_response is None {
            (Some(id), if self.next_focus is None { Some(id) } else { self.next_focus })
        } else if self.focused_response is Some {
            (self.prev_focus, if self.next_focus is None { Some(id) } else { self.next_focus })
        } else {
            (Some(id), self.next_focus)
        }
    }

    /// The frame after the widget `id` in `rect`, clipped to `clip_rect` and
    /// listening to `sense`, has interacted, and the answer it gets: the frame
    /// records whether the widget is focused, pressed or released and where it
    /// stands in the focus chain; the answer carries the widget's place, no
    /// drag, and the flags the previous frame gave it, limited to `sense`.
    pub open spec fn spec_interact(self, rect: Rect, clip_rect: Rect, id: Id, sense: Sense) -> (Frame, Response) {
        let focused = self.ctx.focused_response == Some(id);
        let focus_chain = if focused {
            (self.prev_focus, self.next_focus)
        } else {
            self.spec_focus_candidates(id, sense)
        };
        (
            Frame {
                focused_response: if focused {
                    Some(id)
                } else {
                    self.focused_response
                },
                prev_focus: focus_chain.0,
                next_focus: focus_chain.1,
                pressed_response: if spec_pressed(self.ctx, self.input, rect, id) {
                    Some(id)
                } else {
                    self.pressed_response
                },
                released_response: if spec_released(self.ctx, self.input, id) {
                    Some(id)
                } else {
                    self.released_response
                },
                ..self
            },
            Response {
                id,
                rect,
                interact_rect: spec_intersect(rect, clip_rect),
                drag_delta: Vec2 { x: 0, y: 0 },
                stats: Sense { bits: spec_id_statistics(self.ctx, id) & sense.bits },
            },
        )
    }

    /// Lets the widget `id` in `rect`, clipped to `clip_rect`, interact: it
    /// records whether the widget is focused, pressed or released in this frame
    /// and answers with the flags the previous frame gave it, limited to those
    /// it listens to.
    pub fn interact(&mut self, rect: Rect, clip_rect: Rect, id: Id, sense: Sense) -> (r: Response)
        ensures
            r.id == id,
            r.rect == rect,
            r.interact_rect == spec_intersect(rect, clip_rect),
            r.drag_delta == (Vec2 { x: 0, y: 0 }),
            r.stats.bits == spec_id_statistics(old(self).ctx, id) & sense.bits,
            (*final(self), r) == old(self).spec_interact(rect, clip_rect, id, sense),
            final(self).ctx == old(self).ctx,
            final(self).input == old(self).input,
            final(self).availble_ground_space == old(self).availble_ground_space,
            final(self).hovered_response == old(self).hovered_response,
            final(self).focused_response == (if old(self).ctx.focused_response == Some(id) {
                Some(id)
            } else {
                old(self).focused_response
            }),
            old(self).ctx.focused_response == Some(id) ==> final(self).prev_focus == old(self).prev_focus
                && final(self).next_focus == old(self).next_focus,
            old(self).ctx.focused_response != Some(id) ==> (final(self).prev_focus, final(self).next_focus)
                == old(self).spec_focus_candidates(id, sense),
            final(self).pressed_response == (if spec_pressed(old(self).ctx, old(self).input, rect, id) {
                Some(id)
            } else {
                old(self).pressed_response
            }),
            final(self).released_response == (if spec_released(old(self).ctx, old(self).input, id) {
                Some(id)
            } else {
                old(self).released_response
            }),
    {
        let interact_rect = intersect(rect, clip_rect);
        let focused = self.ctx.focused_response == Some(id);
        let p = self.input.pointer;
        let hovered = rect.min.x <= p.x && p.x <= rect.max.x && rect.min.y <= p.y && p.y
            <= rect.max.y && self.input.pointer_down_active;
        let pressed = (focused && self.input.focused_press_active) || (hovered
            && self.input.pointer_press_active);
        let released = (focused && self.input.focused_press_released) || (
        self.ctx.pressed_response == Some(id) && self.input.pointer_press_released);
        if focused {
            self.focused_response = Some(id);
        } else if sense.contains(Sense::from_bits_retain(SENSE_FOCUSED)) {
            if self.ctx.focused_response.is_none() {
                if self.next_focus.is_none() {
                    self.next_focus = Some(id);
                }
                self.prev_focus = Some(id);
            } else if self.focused_response.is_some() {
                if self.next_focus.is_none() {
                    self.next_focus = Some(id);
                }
            } else {
                self.prev_focus = Some(id);
            }
        }
        if pressed {
            self.pressed_response = Some(id);
        }
        if released {
            self.released_response = Some(id);
        }
        let seen = self.id_statistics(id);
        Response {
            id,
            rect,
            interact_rect,
            drag_delta: Vec2::zero(),
            stats: Sense { bits: seen.bits & sense.bits },
        }
    }

    /// The layout area of the frame's main panel: the free ground shrunk by
    /// four points on each side, with the base layer's ids.
    pub fn central_panel(&self) -> (ui: Ui)
        ensures
            ui.clip_rect == shrink(self.availble_ground_space, 4),
            ui.id == Id(0),
            ui.layout == (Layout(Direction::TopDown, Align::Min)),
    {
        Ui::new(Id::start(), shrink_rect(self.availble_ground_space, 4))
    }

    /// The layout area of a window over `rect`: the rectangle shrunk by four
    /// points on each side, with the ids of layer 2; and the backdrop to draw
    /// under it.
    pub fn window(&self, rect: Rect) -> (r: (Ui, Backdrop))
        ensures
            r.0.clip_rect == shrink(rect, 4),
            r.0.id == Id(0x200_0000),
            r.0.layout == (Layout(Direction::TopDown, Align::Min)),
            r.1 == (Backdrop {
                area: rect,
                fill: Color(spec_rgb_word(60, 60, 60)),
                rounding: 0,
                outline_color: Color(spec_rgb_word(0, 0, 0)),
                outline_size: 1,
            }),
    {
        let ui = Ui::new(Id::from_layer(2), shrink_rect(rect, 4));
        let backdrop = Backdrop {
            area: rect,
            fill: Color::new_rgb(60, 60, 60),
            rounding: 0,
            outline_color: Color::new_rgb(0, 0, 0),
            outline_size: 1,
        };
        (ui, backdrop)
    }
}

/// The colour word of 8-bit components.
pub open spec fn spec_rgb_word(r: u8, g: u8, b: u8) -> u16 {
    crate::video::spec_rgb(r, g, b)
}

/// A filled, outlined rectangle to draw.
#[derive(Debug, Clone, Copy, PartialEq, Eq, Structural)]
pub struct Backdrop {
    pub area: Rect,
    pub fill: Color,
    pub rounding: u8,
    pub outline_color: Color,
    pub outline_size: u8,
}

/// The rectangle moved in by `by` points on every side.
pub open spec fn shrink(r: Rect, by: u8) -> Rect {
    Rect { min: r.min.spec_plus(Vec2 { x: by, y: by }), max: r.max.spec_minus(Vec2 { x: by, y: by }) }
}

/// The rectangle moved in by `by` points on every side.
pub fn shrink_rect(r: Rect, by: u8) -> (s: Rect)
    ensures
        s == shrink(r, by),
{
    Rect { min: r.min.plus(Vec2::pos2(by, by)), max: r.max.minus(Vec2::pos2(by, by)) }
}

/// The direction in which a layout hands out space.
#[derive(Debug, Clone, Copy, PartialEq, Eq, Structural)]
pub enum Direction {
    TopDown,
    LeftRight,
    BottomUp,
    RightLeft,
}

/// Where a widget sits across the layout direction.
#[derive(Debug, Clone, Copy, PartialEq, Eq, Structural)]
pub enum Align {
    Min,
    Middle,
    Max,
    Justified,
}

/// A layout: its direction and cross alignment.
#[derive(Debug, Clone, Copy, PartialEq, Eq, Structural)]
pub struct Layout(pub Direction, pub Align);

impl Layout {
    /// Top to bottom, aligned left.
    pub fn default_layout() -> (l: Layout)
        ensures
            l == Layout(Direction::TopDown, Align::Min),
    {
        Layout(Direction::TopDown, Align::Min)
    }
}

/// A region that widgets are laid out in, one after the other.
#[derive(Debug, Clone, Copy, PartialEq, Eq, Structural)]
pub struct Ui {
    pub clip_rect: Rect,
    pub id: Id,
    pub layout: Layout,
}

/// The space left after a widget of `size` took its place.
pub open spec fn spec_remaining(clip: Rect, dir: Direction, size: Vec2) -> Rect {
    match dir {
        Direction::TopDown => Rect { min: clip.min.spec_plus(Vec2 { x: 0, y: size.y }), max: clip.max },
        Direction::LeftRight => Rect { min: clip.min.spec_plus(Vec2 { x: size.x, y: 0 }), max: clip.max },
        Direction::BottomUp => Rect { min: clip.min, max: clip.max.spec_minus(Vec2 { x: 0, y: size.y }) },
        Direction::RightLeft => Rect { min: clip.min, max: clip.max.spec_minus(Vec2 { x: size.x, y: 0 }) },
    }
}

/// The corner a widget of `size` starts from.
pub open spec fn spec_anchor(clip: Rect, dir: Direction, size: Vec2) -> Vec2 {
    match dir {
        Direction::TopDown => clip.min,
        Direction::LeftRight => clip.min,
        Direction::BottomUp => (Vec2 { x: clip.min.x, y: clip.max.y }).spec_minus(Vec2 { x: 0, y: size.y }),
        Direction::RightLeft => (Vec2 { x: clip.max.x, y: clip.min.y }).spec_minus(Vec2 { x: size.x, y: 0 }),
    }
}

/// The rectangle a widget of `size` is given.
pub open spec fn spec_placement(clip: Rect, layout: Layout, size: Vec2) -> Rect {
    let rect = Rect::spec_from_two_pos(spec_anchor(clip, layout.0, size), size);
    match (layout.0, layout.1) {
        (Direction::TopDown, Align::Middle) | (Direction::BottomUp, Align::Middle) => rect.spec_translate(
            Vec2 { x: sat_sub(clip.spec_width(), size.x) >> 1u8, y: 0 },
        ),
        (Direction::TopDown, Align::Max) | (Direction::BottomUp, Align::Max) => rect.spec_translate(
            Vec2 { x: sat_sub(clip.spec_width(), size.x), y: 0 },
        ),
        (Direction::LeftRight, Align::Middle) | (Direction::RightLeft, Align::Middle) => rect.spec_translate(
            Vec2 { x: 0, y: sat_sub(clip.spec_height(), size.y) >> 1u8 },
        ),
        (Direction::LeftRight, Align::Max) | (Direction::RightLeft, Align::Max) => rect.spec_translate(
            Vec2 { x: 0, y: sat_sub(clip.spec_height(), size.y) },
        ),
        (Direction::TopDown, Align::Justified) | (Direction::BottomUp, Align::Justified) => rect.spec_set_width(
            clip.spec_width(),
        ),
        (Direction::RightLeft, Align::Justified) | (Direction::LeftRight, Align::Justified) => rect.spec_set_height(
            clip.spec_height(),
        ),
        _ => rect,
    }
}

impl Ui {
    /// A region over `clip_rect` whose widgets take ids after `id`, laid out
    /// top to bottom.
    pub fn new(id: Id, clip_rect: Rect) -> (ui: Ui)
        ensures
            ui.id == id,
            ui.clip_rect == clip_rect,
            ui.layout == Layout(Direction::TopDown, Align::Min),
    {
        Ui { clip_rect, id, layout: Layout::default_layout() }
    }

    /// Gives the next widget a place of `size`, lets it interact in `frame`,
    /// and shrinks the free region by the space it took.
    pub fn allocate_size(&mut self, frame: &mut Frame, size: Vec2, sense: Sense) -> (r: Response)
        ensures
            final(self).id == old(self).id.spec_successor(),
            final(self).layout == old(self).layout,
            final(self).clip_rect == spec_remaining(old(self).clip_rect, old(self).layout.0, size),
            r.id == old(self).id.spec_successor(),
            r.rect == spec_placement(old(self).clip_rect, old(self).layout, size),
            r.interact_rect == spec_intersect(r.rect, old(self).clip_rect),
            r.stats.bits == spec_id_statistics(old(frame).ctx, r.id) & sense.bits,
            (*final(frame), r) == old(frame).spec_interact(
                spec_placement(old(self).clip_rect, old(self).layout, size),
                old(self).clip_rect,
                old(self).id.spec_successor(),
                sense,
            ),
    {
        let Layout(direction, align) = self.layout;
        let clip = self.clip_rect;
        let remaining_space = match direction {
            Direction::TopDown => Rect { min: clip.min.plus(Vec2::only_y(size.y)), max: clip.max },
            Direction::LeftRight => Rect { min: clip.min.plus(Vec2::only_x(size.x)), max: clip.max },
            Direction::BottomUp => Rect { min: clip.min, max: clip.max.minus(Vec2::only_y(size.y)) },
            Direction::RightLeft => Rect { min: clip.min, max: clip.max.minus(Vec2::only_x(size.x)) },
        };
        let rect_min = match direction {
            Direction::TopDown => clip.min,
            Direction::LeftRight => clip.min,
            Direction::BottomUp => clip.bottom_left().minus(Vec2::only_y(size.y)),
            Direction::RightLeft => clip.top_right().minus(Vec2::only_x(size.x)),
        };
        let rect = Rect::from_two_pos(rect_min, size);
        let width = clip.width();
        let height = clip.height();
        let rect = match (direction, align) {
            (Direction::TopDown, Align::Middle) | (Direction::BottomUp, Align::Middle) => {
                let dx: u8 = if width < size.x { 0 } else { width - size.x };
                rect.translate(Vec2::only_x(dx >> 1u8))
            },
            (Direction::TopDown, Align::Max) | (Direction::BottomUp, Align::Max) => {
                let dx: u8 = if width < size.x { 0 } else { width - size.x };
                rect.translate(Vec2::only_x(dx))
            },
            (Direction::LeftRight, Align::Middle) | (Direction::RightLeft, Align::Middle) => {
                let dy: u8 = if height < size.y { 0 } else { height - size.y };
                rect.translate(Vec2::only_y(dy >> 1u8))
            },
            (Direction::LeftRight, Align::Max) | (Direction::RightLeft, Align::Max) => {
                let dy: u8 = if height < size.y { 0 } else { height - size.y };
                rect.translate(Vec2::only_y(dy))
            },
            (Direction::TopDown, Align::Justified) | (Direction::BottomUp, Align::Justified) => {
                rect.set_width(width)
            },
            (Direction::RightLeft, Align::Justified) | (Direction::LeftRight, Align::Justified) => {
                rect.set_height(height)
            },
            _ => rect,
        };
        let id = self.id.next();
        let response = frame.interact(rect, clip, id, sense);
        self.clip_rect = remaining_space;
        response
    }
}

/// Handing out space never enlarges the free region: its top-left corner only
/// moves right or down and its bottom-right corner only left or up.
pub proof fn law_allocation_shrinks_region(clip: Rect, dir: Direction, size: Vec2)
    ensures
        spec_remaining(clip, dir, size).min.x >= clip.min.x,
        spec_remaining(clip, dir, size).min.y >= clip.min.y,
        spec_remaining(clip, dir, size).max.x <= clip.max.x,
        spec_remaining(clip, dir, size).max.y <= clip.max.y,
{
}

/// The answer to a widget never carries a flag it does not listen to.
pub proof fn law_response_within_sense(ctx: Ctx, id: Id, sense: Sense)
    ensures
        (spec_id_statistics(ctx, id) & sense.bits) & !sense.bits == 0,
{
    let s = spec_id_statistics(ctx, id);
    let b = sense.bits;
    assert((s & b) & !b == 0) by (bit_vector);
}

/// Once asked for, a repaint stays asked for: closing a frame never clears it.
pub proof fn law_repaint_is_sticky(frame: Frame, after: Ctx)
    requires
        frame.ctx.wants_repaint,
        after.wants_repaint == (frame.ctx.wants_repaint || frame.pressed_response
            != frame.ctx.pressed_response || frame.hovered_response != frame.ctx.hovered_response
            || Ctx::spec_next_focus(frame) != frame.ctx.focused_response
            || frame.released_response != frame.ctx.released_response),
    ensures
        after.wants_repaint,
{
}

/// The pointer presses a widget only from inside it: a widget that does not
/// have the focus is recorded as pressed exactly when the pointer is down and
/// pressing at a point within its rectangle on both axes, edges included.
pub proof fn law_pointer_press_needs_pointer_inside(f: Frame, rect: Rect, clip_rect: Rect, id: Id, sense: Sense)
    requires
        f.ctx.focused_response != Some(id),
        f.pressed_response != Some(id),
    ensures
        ({
            let p = f.input.pointer;
            let inside = rect.min.x <= p.x && p.x <= rect.max.x && rect.min.y <= p.y && p.y
                <= rect.max.y;
            let after = f.spec_interact(rect, clip_rect, id, sense).0;
            &&& after.pressed_response == Some(id) <==> (inside && f.input.pointer_down_active
                && f.input.pointer_press_active)
            &&& !inside ==> after.pressed_response == f.pressed_response
        }),
{
}

proof fn lemma_half(x: u8)
    by (bit_vector)
    ensures
        x >> 1u8 == x / 2,
{
}

/// Alignment moves a widget across the layout direction by the room left
/// beside it: `Middle` by half of it, rounded down, and `Max` by all of it,
/// relative to where `Min` puts it. Across a horizontal layout the room is the
/// free height, across a vertical one the free width (none when the widget
/// does not fit). Stated where the moved rectangle stays on the screen.
pub proof fn law_alignment_shifts_placement(clip: Rect, dir: Direction, size: Vec2)
    ensures
        ({
            let a = spec_placement(clip, Layout(dir, Align::Min), size);
            let m = spec_placement(clip, Layout(dir, Align::Middle), size);
            let x = spec_placement(clip, Layout(dir, Align::Max), size);
            let horizontal = dir == Direction::LeftRight || dir == Direction::RightLeft;
            let room: int = if horizontal {
                if size.y <= clip.max.y - clip.min.y { clip.max.y - clip.min.y - size.y } else { 0 }
            } else {
                if size.x <= clip.max.x - clip.min.x { clip.max.x - clip.min.x - size.x } else { 0 }
            };
            &&& horizontal && a.max.y + room <= 255 ==> {
                &&& m.min.x == a.min.x && m.max.x == a.max.x
                &&& m.min.y == a.min.y + room / 2 && m.max.y == a.max.y + room / 2
                &&& x.min.x == a.min.x && x.max.x == a.max.x
                &&& x.min.y == a.min.y + room && x.max.y == a.max.y + room
            }
            &&& !horizontal && a.max.x + room <= 255 ==> {
                &&& m.min.y == a.min.y && m.max.y == a.max.y
                &&& m.min.x == a.min.x + room / 2 && m.max.x == a.max.x + room / 2
                &&& x.min.y == a.min.y && x.max.y == a.max.y
                &&& x.min.x == a.min.x + room && x.max.x == a.max.x + room
            }
        }),
{
    lemma_half(sat_sub(clip.spec_height(), size.y));
    lemma_half(sat_sub(clip.spec_width(), size.x));
}

/// A justified widget spans the whole region across the layout direction: in
/// a vertical layout it is as wide as the region, in a horizontal one as high,
/// starting where `Min` puts it. Stated where it stays on the screen.
pub proof fn law_justified_spans_region(clip: Rect, dir: Direction, size: Vec2)
    ensures
        ({
            let a = spec_placement(clip, Layout(dir, Align::Min), size);
            let j = spec_placement(clip, Layout(dir, Align::Justified), size);
            let horizontal = dir == Direction::LeftRight || dir == Direction::RightLeft;
            let width: int = if clip.min.x <= clip.max.x { clip.max.x - clip.min.x } else { 0 };
            let height: int = if clip.min.y <= clip.max.y { clip.max.y - clip.min.y } else { 0 };
            &&& j.min == a.min
            &&& horizontal && a.min.y + height <= 255 ==> j.max.x == a.max.x && j.max.y == a.min.y + height
            &&& !horizontal && a.min.x + width <= 255 ==> j.max.y == a.max.y && j.max.x == a.min.x + width
        }),
{
}

/// A widget is recorded as released only at the end of a press it had: the
/// pointer press that started on it in the previous frame ended, or the press
/// of the focus button ended while it had the focus.
pub proof fn law_release_ends_a_press(f: Frame, rect: Rect, clip_rect: Rect, id: Id, sense: Sense)
    requires
        f.released_response != Some(id),
    ensures
        f.spec_interact(rect, clip_rect, id, sense).0.released_response == Some(id) <==> (
        (f.ctx.pressed_response == Some(id) && f.input.pointer_press_released) || (
        f.ctx.focused_response == Some(id) && f.input.focused_press_released)),
{
}

/// The focus chain of a frame: the widget that had the focus keeps it; while
/// no widget has the focus, each focusable widget becomes the one before it
/// (the last one seen) and the first one seen the one after it; while a
/// widget has the focus, focusable widgets seen before it become the one
/// before it, and the first one seen after it the one after it. Widgets that
/// do not take the focus change nothing of the chain.
pub proof fn law_focus_chain(f: Frame, rect: Rect, clip_rect: Rect, id: Id, sense: Sense)
    requires
        f.focused_response != Some(id),
    ensures
        ({
            let after = f.spec_interact(rect, clip_rect, id, sense).0;
            let focusable = sense.bits & SENSE_FOCUSED == SENSE_FOCUSED;
            let had_focus = f.ctx.focused_response == Some(id);
            &&& after.focused_response == Some(id) <==> had_focus
            &&& had_focus || !focusable ==> after.prev_focus == f.prev_focus && after.next_focus
                == f.next_focus
            &&& !had_focus && focusable && f.ctx.focused_response is None ==> after.prev_focus
                == Some(id) && after.next_focus == (if f.next_focus is None {
                Some(id)
            } else {
                f.next_focus
            })
            &&& !had_focus && focusable && f.ctx.focused_response is Some && f.focused_response
                is None ==> after.prev_focus == Some(id) && after.next_focus == f.next_focus
            &&& !had_focus && focusable && f.ctx.focused_response is Some && f.focused_response
                is Some ==> after.prev_focus == f.prev_focus && after.next_focus == (if f.next_focus
                is None {
                Some(id)
            } else {
                f.next_focus
            })
        }),
{
}

/// How a button is sized.
#[derive(Debug, Clone, Copy, PartialEq, Eq, Structural)]
pub enum Sizing {
    Automatic,
    Cropped(Vec2),
    Padded(Vec2),
}

/// A button with a text on it.
pub struct Button {
    pub text: String,
    pub size: Sizing,
    pub text_color: Color,
}

/// The smallest size a button asks for before its text is measured.
pub open spec fn spec_prep_size(size: Sizing) -> Vec2 {
    match size {
        Sizing::Automatic => Vec2 { x: 0, y: 8 },
        Sizing::Cropped(v) => v.spec_max(Vec2 { x: 0, y: 8 }),
        Sizing::Padded(v) => v.spec_max(Vec2 { x: 0, y: 8 }),
    }
}

/// The size of a rectangle grown by `by` points on every side.
pub open spec fn spec_grown_size(r: Rect, by: u8) -> Vec2 {
    let g = Rect {
        min: r.min.spec_minus(Vec2 { x: by, y: by }),
        max: r.max.spec_plus(Vec2 { x: by, y: by }),
    };
    Vec2 { x: g.spec_width(), y: g.spec_height() }
}

/// The size a button takes once its text took `text_rect`.
pub open spec fn spec_alloc_size(size: Sizing, text_rect: Rect) -> Vec2 {
    match size {
        Sizing::Automatic => spec_grown_size(text_rect, 3),
        _ => spec_prep_size(size).spec_max(spec_grown_size(text_rect, 3)),
    }
}

/// The colours of a button with the given interaction flags: dark when
/// pressed, light-edged when focused or hovered, plain otherwise.
pub open spec fn spec_button_style(stats: Sense) -> (u16, u16) {
    if stats.bits & SENSE_PRESSED != 0 {
        (spec_rgb_word(0, 0, 0), spec_rgb_word(32, 32, 32))
    } else if stats.bits & (SENSE_FOCUSED | SENSE_HOVERED) != 0 {
        (spec_rgb_word(200, 200, 200), spec_rgb_word(100, 100, 100))
    } else {
        (spec_rgb_word(0, 0, 0), spec_rgb_word(100, 100, 100))
    }
}

impl Button {
    /// A button showing `text`.
    pub fn new(text: String, size: Sizing, text_color: Color) -> (b: Self)
        ensures
            b.text@ == text@,
            b.size == size,
            b.text_color == text_color,
    {
        Button { text, size, text_color }
    }

    /// The smallest size the button asks for before its text is measured.
    pub fn prep_size(&self) -> (v: Vec2)
        ensures
            v == spec_prep_size(self.size),
    {
        let least = Vec2::pos2(0, 8);
        match self.size {
            Sizing::Automatic => least,
            Sizing::Cropped(v) => v.max(least),
            Sizing::Padded(v) => v.max(least),
        }
    }

    /// The size the button takes once its text took `text_rect`.
    pub fn alloc_size(&self, text_rect: Rect) -> (v: Vec2)
        ensures
            v == spec_alloc_size(self.size, text_rect),
    {
        let grown = Rect {
            min: text_rect.min.minus(Vec2::pos2(3, 3)),
            max: text_rect.max.plus(Vec2::pos2(3, 3)),
        };
        let wanted = Vec2::pos2(grown.width(), grown.height());
        match self.size {
            Sizing::Automatic => wanted,
            _ => self.prep_size().max(wanted),
        }
    }

    /// Places the button in `ui` once its text took `text_rect`, lets it
    /// interact in `frame`, and gives the box to draw under its text: the
    /// button's rectangle shrunk by one point, rounded by one, with a one-point
    /// outline, in the colours of its state.
    pub fn ui(&self, ui: &mut Ui, frame: &mut Frame, text_rect: Rect) -> (r: (Response, Backdrop))
        ensures
            r.0.rect == spec_placement(old(ui).clip_rect, old(ui).layout, spec_alloc_size(self.size, text_rect)),
            r.0.id == old(ui).id.spec_successor(),
            r.0.stats.bits == spec_id_statistics(old(frame).ctx, r.0.id) & (SENSE_FOCUSED
                | SENSE_PRESSED | SENSE_RELEASED | SENSE_HOVERED),
            (*final(frame), r.0) == old(frame).spec_interact(
                r.0.rect,
                old(ui).clip_rect,
                old(ui).id.spec_successor(),
                Sense { bits: SENSE_FOCUSED | SENSE_PRESSED | SENSE_RELEASED | SENSE_HOVERED },
            ),
            r.1 == (Backdrop {
                area: shrink(r.0.rect, 1),
                fill: Color(spec_button_style(r.0.stats).1),
                rounding: 1,
                outline_color: Color(spec_button_style(r.0.stats).0),
                outline_size: 1,
            }),
            final(ui).id == old(ui).id.spec_successor(),
            final(ui).layout == old(ui).layout,
            final(ui).clip_rect == spec_remaining(old(ui).clip_rect, old(ui).layout.0, spec_alloc_size(self.size, text_rect)),
    {
        let size = self.alloc_size(text_rect);
        let resp = ui.allocate_size(frame, size, Sense::clickable());
        let (outline_color, fill) = if resp.stats.intersects(Sense::from_bits_retain(SENSE_PRESSED)) {
            (Color::new_rgb(0, 0, 0), Color::new_rgb(32, 32, 32))
        } else if resp.stats.intersects(Sense::from_bits_retain(SENSE_FOCUSED | SENSE_HOVERED)) {
            (Color::new_rgb(200, 200, 200), Color::new_rgb(100, 100, 100))
        } else {
            (Color::new_rgb(0, 0, 0), Color::new_rgb(100, 100, 100))
        };
        let backdrop = Backdrop {
            area: shrink_rect(resp.rect, 1),
            fill,
            rounding: 1,
            outline_color,
            outline_size: 1,
        };
        (resp, backdrop)
    }
}

/// A line of text.
pub struct Label {
    pub text: String,
    pub size: u8,
}

impl Label {
    /// A label showing `text` at text size `size`.
    pub fn new(text: String, size: u8) -> (l: Self)
        ensures
            l.text@ == text@,
            l.size == size,
    {
        Label { text, size }
    }

    /// Places the label in `ui` once its text took `text_rect`.
    pub fn ui(&self, ui: &mut Ui, frame: &mut Frame, text_rect: Rect) -> (r: Response)
        ensures
            r.rect == spec_placement(old(ui).clip_rect, old(ui).layout, Vec2 { x: text_rect.spec_width(), y: text_rect.spec_height() }),
            r.stats.bits == spec_id_statistics(old(frame).ctx, r.id) & SENSE_HOVERED,
            (*final(frame), r) == old(frame).spec_interact(
                r.rect,
                old(ui).clip_rect,
                old(ui).id.spec_successor(),
                Sense { bits: SENSE_HOVERED },
            ),
            final(ui).id == old(ui).id.spec_successor(),
            final(ui).layout == old(ui).layout,
            final(ui).clip_rect == spec_remaining(
                old(ui).clip_rect,
                old(ui).layout.0,
                Vec2 { x: text_rect.spec_width(), y: text_rect.spec_height() },
            ),
    {
        let size = Vec2::pos2(text_rect.width(), text_rect.height());
        ui.allocate_size(frame, size, Sense::hovered())
    }
}

} // verus!
