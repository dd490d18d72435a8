//! The pointer: its position in normalized device coordinates and the point
//! where the current drag began.
use vstd::prelude::*;
use winit::event::{ElementState, MouseButton};

verus! {

// Plain enums of winit, declared with their variants.
#[verifier::external_type_specification]
pub struct ExElementState(ElementState);

#[verifier::external_type_specification]
pub struct ExMouseButton(MouseButton);

/// A point in normalized device coordinates, held exactly as two fractions:
/// `x_num / x_den` across (-1 at the left edge, 1 at the right) and
/// `y_num / y_den` upwards (-1 at the bottom edge, 1 at the top).
#[derive(Debug, Clone, Copy, PartialEq, Eq, Structural)]
pub struct Position {
    pub x_num: i64,
    pub x_den: i64,
    pub y_num: i64,
    pub y_den: i64,
}

impl Position {
    pub open spec fn wf(self) -> bool {
        self.x_den > 0 && self.y_den > 0
    }

    /// Both coordinates lie in [-1, 1].
    pub open spec fn in_unit_square(self) -> bool {
        -self.x_den <= self.x_num <= self.x_den && -self.y_den <= self.y_num <= self.y_den
    }

    /// The centre of the surface.
    pub fn origin() -> (r: Position)
        ensures
            r.wf(),
            r == (Position { x_num: 0, x_den: 1, y_num: 0, y_den: 1 }),
    {
        Position { x_num: 0, x_den: 1, y_num: 0, y_den: 1 }
    }
}

/// The normalized position of pixel `(px, py)` on a surface of `w` by `h`
/// pixels: `x = px / w * 2 - 1` and `y = -(py / h * 2 - 1)`.
pub open spec fn normalize(px: int, py: int, w: int, h: int) -> Position {
    Position { x_num: (2 * px - w) as i64, x_den: w as i64, y_num: (h - 2 * py) as i64, y_den: h as i64 }
}

/// Normalizes a pixel position against the surface size.
pub fn normalized(px: i32, py: i32, width: u32, height: u32) -> (r: Position)
    requires
        width > 0,
        height > 0,
    ensures
        r.wf(),
        r == normalize(px as int, py as int, width as int, height as int),
{
    Position {
        x_num: 2 * (px as i64) - width as i64,
        x_den: width as i64,
        y_num: height as i64 - 2 * (py as i64),
        y_den: height as i64,
    }
}

/// Whether a button takes part in dragging.
pub open spec fn is_tracked(button: MouseButton) -> bool {
    button == MouseButton::Left || button == MouseButton::Middle || button == MouseButton::Right
}

/// Whether a button takes part in dragging: left, middle or right.
pub fn drags(button: MouseButton) -> (r: bool)
    ensures
        r == is_tracked(button),
{
    match button {
        MouseButton::Left | MouseButton::Middle | MouseButton::Right => true,
        _ => false,
    }
}

#[derive(Debug, Clone, Copy, PartialEq, Eq, Structural)]
pub struct CursorState {
    pub position: Position,
    pub dragging_from: Option<Position>,
}

/// The cursor after a pointer move to pixel `(px, py)` on a `w` by `h` surface.
pub open spec fn cursor_moved(c: CursorState, px: int, py: int, w: int, h: int) -> CursorState {
    CursorState { position: normalize(px, py, w, h), ..c }
}

/// The cursor after a button changes state: a tracked press starts a drag at
/// the current position unless one is active; a tracked release ends it.
pub open spec fn cursor_button(c: CursorState, state: ElementState, button: MouseButton) -> CursorState {
    if !is_tracked(button) {
        c
    } else if state == ElementState::Pressed {
        if c.dragging_from is None {
            CursorState { dragging_from: Some(c.position), ..c }
        } else {
            c
        }
    } else {
        CursorState { dragging_from: None, ..c }
    }
}

/// Normalizing the same pixel against the same size a second time changes
/// nothing, and a pixel on the surface lands in [-1, 1] on both axes.
pub proof fn lemma_normalize_stable_and_bounded(c: CursorState, px: i32, py: i32, w: u32, h: u32)
    requires
        w > 0,
        h > 0,
    ensures
        cursor_moved(cursor_moved(c, px as int, py as int, w as int, h as int), px as int, py as int, w as int, h as int)
            == cursor_moved(c, px as int, py as int, w as int, h as int),
        normalize(px as int, py as int, w as int, h as int).wf(),
        0 <= px <= w && 0 <= py <= h ==> normalize(px as int, py as int, w as int, h as int).in_unit_square(),
{
}

impl CursorState {
    pub open spec fn wf(self) -> bool {
        &&& self.position.wf()
        &&& self.dragging_from matches Some(p) ==> p.wf()
    }

    /// At the centre, with no drag.
    pub fn new() -> (r: CursorState)
        ensures
            r.wf(),
            r.position == (Position { x_num: 0, x_den: 1, y_num: 0, y_den: 1 }),
            r.dragging_from is None,
    {
        CursorState { position: Position::origin(), dragging_from: None }
    }

    /// Records a pointer move to pixel `(px, py)` on a `width` by `height` surface.
    pub fn move_to(&mut self, px: i32, py: i32, width: u32, height: u32)
        requires
            width > 0,
            height > 0,
        ensures
            *final(self) == cursor_moved(*old(self), px as int, py as int, width as int, height as int),
    {
        self.position = normalized(px, py, width, height);
    }

    /// Records a button press or release.
    pub fn button(&mut self, state: ElementState, button: MouseButton)
        ensures
            *final(self) == cursor_button(*old(self), state, button),
    {
        if drags(button) {
            match state {
                ElementState::Pressed => {
                    if self.dragging_from.is_none() {
                        self.dragging_from = Some(self.position);
                    }
                },
                ElementState::Released => {
                    self.dragging_from = None;
                },
            }
        }
    }
}

} // verus!
