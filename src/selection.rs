//! Pointer tracking: screen positions mapped into image pixels, the rectangle
//! that a drag selects, and the pen samples that a drag draws.

use vstd::prelude::*;

verus! {

/// What a drag on the image does.
#[derive(Clone, Copy, Debug, PartialEq, Eq, Structural)]
pub enum EditMode {
    /// A drag selects a rectangle.
    Selection,
    /// A drag paints with the pen.
    Drawing,
}

impl EditMode {
    /// The mode's name as shown to the user.
    pub fn label(&self) -> (r: &'static str)
        ensures
            r@ == (match *self {
                EditMode::Selection => "Selection"@,
                EditMode::Drawing => "Drawing"@,
            }),
    {
        proof {
            reveal_strlit("Selection");
            reveal_strlit("Drawing");
        }
        match self {
            EditMode::Selection => "Selection",
            EditMode::Drawing => "Drawing",
        }
    }
}

/// A position on screen, in whole pixels.
#[derive(Clone, Copy, Debug, PartialEq, Eq, Structural)]
pub struct ScreenPos {
    pub x: i64,
    pub y: i64,
}

/// A position in image pixel space. Corners of a selection range over
/// `[0, width] × [0, height]`, so a corner may sit on the far edge.
#[derive(Clone, Copy, Debug, PartialEq, Eq, Structural)]
pub struct PixelPos {
    pub x: u32,
    pub y: u32,
}

/// `v` held inside `[0, hi]`.
pub open spec fn clamp(v: int, hi: int) -> int {
    if v < 0 {
        0
    } else if v > hi {
        hi
    } else {
        v
    }
}

pub open spec fn min(a: int, b: int) -> int {
    if a <= b {
        a
    } else {
        b
    }
}

pub open spec fn max(a: int, b: int) -> int {
    if a >= b {
        a
    } else {
        b
    }
}

fn clamp_axis(v: i64, origin: i64, hi: u32) -> (r: u32)
    ensures
        r == clamp(v - origin, hi as int),
{
    let d: i128 = v as i128 - origin as i128;
    if d < 0 {
        0
    } else if d > hi as i128 {
        hi
    } else {
        d as u32
    }
}

/// Maps a pointer position into the pixel space of an image of `width` ×
/// `height` whose top-left corner is shown at `origin` (scrolling included):
/// the offset from the corner, each axis clamped to `[0, width]` / `[0, height]`.
pub fn to_image_space(pointer: ScreenPos, origin: ScreenPos, width: u32, height: u32) -> (p: PixelPos)
    ensures
        p.x == clamp(pointer.x - origin.x, width as int),
        p.y == clamp(pointer.y - origin.y, height as int),
{
    PixelPos { x: clamp_axis(pointer.x, origin.x, width), y: clamp_axis(pointer.y, origin.y, height) }
}

/// An axis-aligned rectangle given by two corners in any order: `anchor`, where
/// the drag began, and `corner`, where it is now.
#[derive(Clone, Copy, Debug, PartialEq, Eq, Structural)]
pub struct SelectionRect {
    pub anchor: PixelPos,
    pub corner: PixelPos,
}

impl SelectionRect {
    pub open spec fn left(self) -> int {
        min(self.anchor.x as int, self.corner.x as int)
    }

    pub open spec fn top(self) -> int {
        min(self.anchor.y as int, self.corner.y as int)
    }

    pub open spec fn right(self) -> int {
        max(self.anchor.x as int, self.corner.x as int)
    }

    pub open spec fn bottom(self) -> int {
        max(self.anchor.y as int, self.corner.y as int)
    }

    /// Both corners lie in `[0, w] × [0, h]`.
    pub open spec fn inside(self, w: int, h: int) -> bool {
        &&& self.anchor.x <= w
        &&& self.corner.x <= w
        &&& self.anchor.y <= h
        &&& self.corner.y <= h
    }

    /// The rectangle spanned by two points.
    pub fn from_two_pos(a: PixelPos, b: PixelPos) -> (r: SelectionRect)
        ensures
            r.anchor == a,
            r.corner == b,
    {
        SelectionRect { anchor: a, corner: b }
    }

    pub fn min_x(&self) -> (r: u32)
        ensures
            r == self.left(),
    {
        if self.anchor.x <= self.corner.x {
            self.anchor.x
        } else {
            self.corner.x
        }
    }

    pub fn min_y(&self) -> (r: u32)
        ensures
            r == self.top(),
    {
        if self.anchor.y <= self.corner.y {
            self.anchor.y
        } else {
            self.corner.y
        }
    }

    pub fn max_x(&self) -> (r: u32)
        ensures
            r == self.right(),
    {
        if self.anchor.x >= self.corner.x {
            self.anchor.x
        } else {
            self.corner.x
        }
    }

    pub fn max_y(&self) -> (r: u32)
        ensures
            r == self.bottom(),
    {
        if self.anchor.y >= self.corner.y {
            self.anchor.y
        } else {
            self.corner.y
        }
    }

    pub fn width(&self) -> (r: u32)
        ensures
            r == self.right() - self.left(),
    {
        self.max_x() - self.min_x()
    }

    pub fn height(&self) -> (r: u32)
        ensures
            r == self.bottom() - self.top(),
    {
        self.max_y() - self.min_y()
    }

    /// The rectangle holds no pixel.
    pub fn is_empty(&self) -> (r: bool)
        ensures
            r == (self.left() == self.right() || self.top() == self.bottom()),
    {
        self.width() == 0 || self.height() == 0
    }
}

/// One frame's pointer input over the image.
#[derive(Clone, Copy, Debug, PartialEq, Eq, Structural)]
pub enum PointerEvent {
    /// The pointer is held down and moving, at this position.
    Drag(ScreenPos),
    /// A press and release without movement, at this position.
    Click(ScreenPos),
    /// The pointer is not dragging.
    Idle,
}

/// Paint from the last pen sample, if the stroke goes on, to a new one.
#[derive(Clone, Copy, Debug, PartialEq, Eq, Structural)]
pub struct PenMove {
    pub from: Option<PixelPos>,
    pub to: PixelPos,
}

/// What the pointer has done so far: the selection, and the last pen sample
/// of a stroke in progress.
#[derive(Clone, Copy, Debug, PartialEq, Eq, Structural)]
pub struct CursorState {
    /// Selection rectangle.
    pub selection: Option<SelectionRect>,
    /// Where the current selection drag began.
    pub start_selection: PixelPos,
    /// Last pen sample of the stroke in progress.
    pub last_drawing_point: Option<PixelPos>,
    /// A selection drag is in progress.
    pub is_selecting: bool,
    /// Cursor operations are shown in a window of their own.
    pub cursor_op_as_window: bool,
    /// What a drag does.
    pub mode: EditMode,
}

impl CursorState {
    /// Nothing selected, no stroke, selection mode.
    pub fn new() -> (r: CursorState)
        ensures
            r.selection is None,
            r.last_drawing_point is None,
            !r.is_selecting,
            !r.cursor_op_as_window,
            r.mode == EditMode::Selection,
            r.start_selection == (PixelPos { x: 0, y: 0 }),
    {
        CursorState {
            selection: None,
            start_selection: PixelPos { x: 0, y: 0 },
            last_drawing_point: None,
            is_selecting: false,
            cursor_op_as_window: false,
            mode: EditMode::Selection,
        }
    }

    /// The selection, if any, lies in `[0, w] × [0, h]`.
    pub open spec fn selection_inside(self, w: int, h: int) -> bool {
        self.selection matches Some(r) ==> r.inside(w, h)
    }

    /// The selection and the point where a selection drag began lie in
    /// `[0, w] × [0, h]`.
    pub open spec fn wf(self, w: int, h: int) -> bool {
        &&& self.selection_inside(w, h)
        &&& self.start_selection.x <= w
        &&& self.start_selection.y <= h
    }

    /// The state after `event` on an image of `w` × `h` shown at `origin`, and
    /// the pen move it asks for.
    pub open spec fn next(self, event: PointerEvent, origin: ScreenPos, w: u32, h: u32) -> (
        CursorState,
        Option<PenMove>,
    ) {
        match event {
            PointerEvent::Drag(pointer) => {
                let q = PixelPos {
                    x: clamp(pointer.x - origin.x, w as int) as u32,
                    y: clamp(pointer.y - origin.y, h as int) as u32,
                };
                match self.mode {
                    EditMode::Selection => {
                        let anchor = if self.is_selecting && self.selection is Some {
                            self.start_selection
                        } else {
                            q
                        };
                        (
                            CursorState {
                                selection: Some(SelectionRect { anchor, corner: q }),
                                start_selection: anchor,
                                is_selecting: true,
                                ..self
                            },
                            None,
                        )
                    },
                    EditMode::Drawing => (
                        CursorState { last_drawing_point: Some(q), ..self },
                        Some(PenMove { from: self.last_drawing_point, to: q }),
                    ),
                }
            },
            PointerEvent::Click(pointer) => {
                let q = PixelPos {
                    x: clamp(pointer.x - origin.x, w as int) as u32,
                    y: clamp(pointer.y - origin.y, h as int) as u32,
                };
                let s = CursorState {
                    selection: None,
                    is_selecting: false,
                    last_drawing_point: None,
                    ..self
                };
                match self.mode {
                    EditMode::Selection => (s, None),
                    EditMode::Drawing => (s, Some(PenMove { from: None, to: q })),
                }
            },
            PointerEvent::Idle => (
                CursorState { is_selecting: false, last_drawing_point: None, ..self },
                None,
            ),
        }
    }

    /// Takes one frame's pointer input over an image of `width` × `height`
    /// shown at `origin`. A drag in selection mode starts a rectangle (its
    /// first point anchors it) or moves its free corner; a drag in drawing
    /// mode asks for paint from the last pen sample to this one. A click
    /// clears the selection, and in drawing mode asks for a single dab. When
    /// the pointer stops dragging the rectangle stays and the stroke ends.
    pub fn on_pointer(&mut self, event: PointerEvent, origin: ScreenPos, width: u32, height: u32) -> (r: Option<PenMove>)
        ensures
            (*final(self), r) == old(self).next(event, origin, width, height),
    {
        match event {
            PointerEvent::Drag(pointer) => {
                let q = to_image_space(pointer, origin, width, height);
                match self.mode {
                    EditMode::Selection => {
                        let anchor = if self.is_selecting && self.selection.is_some() {
                            self.start_selection
                        } else {
                            q
                        };
                        self.start_selection = anchor;
                        self.selection = Some(SelectionRect::from_two_pos(anchor, q));
                        self.is_selecting = true;
                        None
                    },
                    EditMode::Drawing => {
                        let from = self.last_drawing_point;
                        self.last_drawing_point = Some(q);
                        Some(PenMove { from, to: q })
                    },
                }
            },
            PointerEvent::Click(pointer) => {
                let q = to_image_space(pointer, origin, width, height);
                self.selection = None;
                self.is_selecting = false;
                self.last_drawing_point = None;
                match self.mode {
                    EditMode::Selection => None,
                    EditMode::Drawing => Some(PenMove { from: None, to: q }),
                }
            },
            PointerEvent::Idle => {
                self.is_selecting = false;
                self.last_drawing_point = None;
                None
            },
        }
    }

    /// The state after switching to `mode`: entering drawing mode drops the
    /// selection.
    pub open spec fn with_mode(self, mode: EditMode) -> CursorState {
        if mode != self.mode && mode == EditMode::Drawing {
            CursorState { mode, selection: None, ..self }
        } else {
            CursorState { mode, ..self }
        }
    }

    /// Switches what a drag does; entering drawing mode drops the selection.
    pub fn set_mode(&mut self, mode: EditMode)
        ensures
            *final(self) == old(self).with_mode(mode),
    {
        if mode != self.mode && mode == EditMode::Drawing {
            self.selection = None;
        }
        self.mode = mode;
    }

    /// Drops the selection.
    pub fn clear_selection(&mut self)
        ensures
            *final(self) == (CursorState { selection: None, ..*old(self) }),
    {
        self.selection = None;
    }
}

/// The state after a run of pointer events, each with where the image was
/// shown at the time, on an image of `w` × `h`.
pub open spec fn run_events(s: CursorState, events: Seq<(PointerEvent, ScreenPos)>, w: u32, h: u32) -> CursorState
    decreases events.len(),
{
    if events.len() == 0 {
        s
    } else {
        run_events(s.next(events[0].0, events[0].1, w, h).0, events.drop_first(), w, h)
    }
}

/// Whatever path the pointer takes, the corners of the selection stay within
/// `[0, width] × [0, height]`.
pub proof fn lemma_selection_stays_inside(
    s: CursorState,
    events: Seq<(PointerEvent, ScreenPos)>,
    w: u32,
    h: u32,
)
    requires
        s.wf(w as int, h as int),
    ensures
        run_events(s, events, w, h).wf(w as int, h as int),
    decreases events.len(),
{
    if events.len() > 0 {
        let t = s.next(events[0].0, events[0].1, w, h).0;
        assert(t.wf(w as int, h as int));
        lemma_selection_stays_inside(t, events.drop_first(), w, h);
    }
}

/// Switching to drawing mode drops the selection, and switching back to
/// selection mode does not bring it back.
pub proof fn lemma_drawing_mode_drops_selection(s: CursorState)
    requires
        s.mode == EditMode::Selection,
    ensures
        s.with_mode(EditMode::Drawing).selection is None,
        s.with_mode(EditMode::Drawing).with_mode(EditMode::Selection).selection is None,
{
}

} // verus!
