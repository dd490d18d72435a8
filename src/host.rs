//! The state that the host window or canvas feeds: surface size, held keys and
//! cursor, and the decision that each window event leads to.
use vstd::prelude::*;
use winit::event::{ElementState, MouseButton};
use winit::keyboard::{KeyCode, PhysicalKey};
use crate::cursor::{cursor_button, cursor_moved, is_tracked, CursorState, Position};
use crate::keys::{key_to_keycode, label_code, lower_of, PressedKeys};

verus! {

/// A window event, as far as this layer reads it.
pub enum HostEvent {
    CloseRequested,
    /// A key changed state; `escape` tells whether its logical key is Escape.
    Key { key: PhysicalKey, state: ElementState, escape: bool },
    Focused(bool),
    Resized { width: u32, height: u32 },
    /// The pointer moved to this pixel of the surface.
    CursorMoved { x: i32, y: i32 },
    MouseInput { state: ElementState, button: MouseButton },
    RedrawRequested,
    Other,
}

/// What the event loop has to do after the state took in an event.
#[derive(Debug, Clone, Copy, PartialEq, Eq, Structural)]
pub enum Reaction {
    /// Leave the event loop.
    Exit,
    /// The size changed: reconfigure the surface to it, then tell the renderer.
    Resized,
    /// Draw a frame, then ask for the next one.
    Redraw,
    Continue,
}

/// The host state as a mathematical value.
pub struct HostView {
    pub width: u32,
    pub height: u32,
    pub keys: Set<PhysicalKey>,
    pub cursor: CursorState,
}

/// The size of the surface in pixels, the keys held down and the cursor.
pub struct HostState {
    pub width: u32,
    pub height: u32,
    pub pressed_keys: PressedKeys,
    pub cursor: CursorState,
}

impl View for HostState {
    type V = HostView;

    open spec fn view(&self) -> HostView {
        HostView {
            width: self.width,
            height: self.height,
            keys: self.pressed_keys@,
            cursor: self.cursor,
        }
    }
}

impl HostView {
    pub open spec fn wf(self) -> bool {
        self.width > 0 && self.height > 0 && self.cursor.wf()
    }
}

/// The state after a resize to `width` by `height`: taken when both are
/// positive, ignored otherwise.
pub open spec fn resized(v: HostView, width: int, height: int) -> HostView {
    if width > 0 && height > 0 {
        HostView { width: width as u32, height: height as u32, ..v }
    } else {
        v
    }
}

/// The key set after a key event.
pub open spec fn keys_after(keys: Set<PhysicalKey>, key: PhysicalKey, state: ElementState) -> Set<PhysicalKey> {
    if state == ElementState::Pressed {
        keys.insert(key)
    } else {
        keys.remove(key)
    }
}

/// The new state and the reaction that an event leads to.
pub open spec fn step(v: HostView, e: HostEvent) -> (HostView, Reaction) {
    match e {
        HostEvent::CloseRequested => (v, Reaction::Exit),
        HostEvent::Key { key, state, escape } => {
            let v1 = HostView { keys: keys_after(v.keys, key, state), ..v };
            if state == ElementState::Pressed && escape {
                (v1, Reaction::Exit)
            } else {
                (v1, Reaction::Continue)
            }
        },
        HostEvent::Focused(focused) => {
            if focused {
                (v, Reaction::Continue)
            } else {
                (HostView { keys: Set::empty(), ..v }, Reaction::Continue)
            }
        },
        HostEvent::Resized { width, height } => {
            if width > 0 && height > 0 {
                (resized(v, width as int, height as int), Reaction::Resized)
            } else {
                (v, Reaction::Continue)
            }
        },
        HostEvent::CursorMoved { x, y } => (
            HostView {
                cursor: cursor_moved(v.cursor, x as int, y as int, v.width as int, v.height as int),
                ..v
            },
            Reaction::Continue,
        ),
        HostEvent::MouseInput { state, button } => (
            HostView { cursor: cursor_button(v.cursor, state, button), ..v },
            Reaction::Continue,
        ),
        HostEvent::RedrawRequested => (v, Reaction::Redraw),
        HostEvent::Other => (v, Reaction::Continue),
    }
}

/// The state after a run of events, taken in order.
pub open spec fn run(v: HostView, events: Seq<HostEvent>) -> HostView
    decreases events.len(),
{
    if events.len() == 0 {
        v
    } else {
        step(run(v, events.drop_last()), events.last()).0
    }
}

/// A press of `k`.
pub open spec fn is_press_of(e: HostEvent, k: PhysicalKey) -> bool {
    e matches HostEvent::Key { key, state, .. } && key == k && state == ElementState::Pressed
}

/// A release of `k`, or the loss of input focus.
pub open spec fn ends_hold_of(e: HostEvent, k: PhysicalKey) -> bool {
    ||| e matches HostEvent::Key { key, state, .. } && key == k && state == ElementState::Released
    ||| e == HostEvent::Focused(false)
}

/// `k` was pressed, and neither released nor dropped by a focus loss since.
pub open spec fn held_after(events: Seq<HostEvent>, k: PhysicalKey) -> bool {
    exists|i: int|
        0 <= i < events.len() && #[trigger] is_press_of(events[i], k) && forall|j: int|
            i < j < events.len() ==> !#[trigger] ends_hold_of(events[j], k)
}

/// A press of a button that takes part in dragging.
pub open spec fn is_drag_press(e: HostEvent) -> bool {
    e matches HostEvent::MouseInput { state, button } && is_tracked(button) && state == ElementState::Pressed
}

/// A release of a button that takes part in dragging.
pub open spec fn is_drag_release(e: HostEvent) -> bool {
    e matches HostEvent::MouseInput { state, button } && is_tracked(button) && state == ElementState::Released
}

/// A tracked button was pressed, with no tracked release since.
pub open spec fn drag_held(events: Seq<HostEvent>) -> bool {
    exists|i: int|
        0 <= i < events.len() && #[trigger] is_drag_press(events[i]) && forall|j: int|
            i < j < events.len() ==> !#[trigger] is_drag_release(events[j])
}

/// An accepted resize sets the size to the new one and asks for exactly one
/// reconfiguration and one resize notice.
pub proof fn lemma_accepted_resize(v: HostView, width: u32, height: u32)
    requires
        width > 0,
        height > 0,
    ensures
        step(v, HostEvent::Resized { width, height }) == (
            HostView { width, height, ..v },
            Reaction::Resized,
        ),
{
}

/// A resize with a zero dimension leaves the state as it was and asks for nothing.
pub proof fn lemma_degenerate_resize(v: HostView, width: u32, height: u32)
    requires
        width == 0 || height == 0,
    ensures
        step(v, HostEvent::Resized { width, height }) == (v, Reaction::Continue),
{
}

/// From a state with no key held, a key is held after a run of events exactly
/// when it was pressed and neither released nor dropped by a focus loss since.
pub proof fn lemma_pressed_keys(v: HostView, events: Seq<HostEvent>, k: PhysicalKey)
    requires
        v.keys == Set::<PhysicalKey>::empty(),
    ensures
        run(v, events).keys.contains(k) <==> held_after(events, k),
    decreases events.len(),
{
    if events.len() > 0 {
        let prev = events.drop_last();
        let e = events.last();
        let n = events.len() - 1;
        lemma_pressed_keys(v, prev, k);
        assert(events[n] == e);
        if is_press_of(e, k) {
            assert(held_after(events, k));
        } else if ends_hold_of(e, k) {
            assert(!held_after(events, k)) by {
                if held_after(events, k) {
                    let i = choose|i: int|
                        0 <= i < events.len() && #[trigger] is_press_of(events[i], k) && forall|j: int|
                            i < j < events.len() ==> !#[trigger] ends_hold_of(events[j], k);
                    assert(i != n);
                    assert(!ends_hold_of(events[n], k));
                }
            }
        } else {
            assert(run(v, events).keys.contains(k) == run(v, prev).keys.contains(k));
            if held_after(prev, k) {
                let i = choose|i: int|
                    0 <= i < prev.len() && #[trigger] is_press_of(prev[i], k) && forall|j: int|
                        i < j < prev.len() ==> !#[trigger] ends_hold_of(prev[j], k);
                assert(is_press_of(events[i], k));
                assert forall|j: int| i < j < events.len() implies !#[trigger] ends_hold_of(events[j], k) by {
                    if j < n {
                        assert(events[j] == prev[j]);
                    }
                }
            }
            if held_after(events, k) {
                let i = choose|i: int|
                    0 <= i < events.len() && #[trigger] is_press_of(events[i], k) && forall|j: int|
                        i < j < events.len() ==> !#[trigger] ends_hold_of(events[j], k);
                assert(i != n);
                assert(is_press_of(prev[i], k));
                assert forall|j: int| i < j < prev.len() implies !#[trigger] ends_hold_of(prev[j], k) by {
                    assert(events[j] == prev[j]);
                }
            }
        }
    }
}

/// From a state with no drag, a drag origin is recorded after a run of events
/// exactly when a tracked button was pressed with no tracked release since.
pub proof fn lemma_drag_origin(v: HostView, events: Seq<HostEvent>)
    requires
        v.cursor.dragging_from is None,
    ensures
        run(v, events).cursor.dragging_from is Some <==> drag_held(events),
    decreases events.len(),
{
    if events.len() > 0 {
        let prev = events.drop_last();
        let e = events.last();
        let n = events.len() - 1;
        lemma_drag_origin(v, prev);
        assert(events[n] == e);
        if is_drag_press(e) {
            assert(drag_held(events));
        } else if is_drag_release(e) {
            assert(!drag_held(events)) by {
                if drag_held(events) {
                    let i = choose|i: int|
                        0 <= i < events.len() && #[trigger] is_drag_press(events[i]) && forall|j: int|
                            i < j < events.len() ==> !#[trigger] is_drag_release(events[j]);
                    assert(i != n);
                    assert(!is_drag_release(events[n]));
                }
            }
        } else {
            assert(run(v, events).cursor.dragging_from == run(v, prev).cursor.dragging_from);
            if drag_held(prev) {
                let i = choose|i: int|
                    0 <= i < prev.len() && #[trigger] is_drag_press(prev[i]) && forall|j: int|
                        i < j < prev.len() ==> !#[trigger] is_drag_release(prev[j]);
                assert(is_drag_press(events[i]));
                assert forall|j: int| i < j < events.len() implies !#[trigger] is_drag_release(events[j]) by {
                    if j < n {
                        assert(events[j] == prev[j]);
                    }
                }
            }
            if drag_held(events) {
                let i = choose|i: int|
                    0 <= i < events.len() && #[trigger] is_drag_press(events[i]) && forall|j: int|
                        i < j < events.len() ==> !#[trigger] is_drag_release(events[j]);
                assert(i != n);
                assert(is_drag_press(prev[i]));
                assert forall|j: int| i < j < prev.len() implies !#[trigger] is_drag_release(prev[j]) by {
                    assert(events[j] == prev[j]);
                }
            }
        }
    }
}

/// The relative pointer motion that a browser movement of `(dx, dy)` pixels
/// is reported as.
pub fn pointer_motion(dx: i32, dy: i32) -> (r: (i64, i64))
    ensures
        r.0 == 2 * dx,
        r.1 == 2 * dy,
{
    (2 * dx as i64, 2 * dy as i64)
}

impl HostState {
    pub open spec fn wf(&self) -> bool {
        self@.wf() && self.pressed_keys.wf()
    }

    /// The state of a surface of `width` by `height` pixels, with no key held,
    /// the cursor at the centre and no drag.
    pub fn new(width: u32, height: u32) -> (r: HostState)
        requires
            width > 0,
            height > 0,
        ensures
            r.wf(),
            r.width == width,
            r.height == height,
            r@.keys == Set::<PhysicalKey>::empty(),
            r.cursor.position == (Position { x_num: 0, x_den: 1, y_num: 0, y_den: 1 }),
            r.cursor.dragging_from is None,
    {
        HostState { width, height, pressed_keys: PressedKeys::new(), cursor: CursorState::new() }
    }

    /// Takes a new surface size; returns whether it was accepted. A size with
    /// a dimension of zero or below leaves the state unchanged.
    pub fn resize(&mut self, width: i64, height: i64) -> (accepted: bool)
        requires
            old(self).wf(),
            width <= u32::MAX,
            height <= u32::MAX,
        ensures
            final(self).wf(),
            accepted == (width > 0 && height > 0),
            final(self)@ == resized(old(self)@, width as int, height as int),
            accepted ==> final(self).width == width && final(self).height == height,
            !accepted ==> final(self)@ == old(self)@,
    {
        if width > 0 && height > 0 {
            self.width = width as u32;
            self.height = height as u32;
            true
        } else {
            false
        }
    }

    /// Records a key press or release.
    pub fn key(&mut self, key: PhysicalKey, state: ElementState)
        requires
            old(self).wf(),
        ensures
            final(self).wf(),
            final(self)@ == (HostView { keys: keys_after(old(self)@.keys, key, state), ..old(self)@ }),
    {
        match state {
            ElementState::Pressed => self.pressed_keys.insert(key),
            ElementState::Released => self.pressed_keys.remove(&key),
        }
    }

    /// Records a key press or release that the browser reports by its label.
    /// A label outside the table leaves the state unchanged; the result is
    /// the physical key that the label stands for.
    pub fn key_label(&mut self, label: &str, state: ElementState) -> (r: Option<KeyCode>)
        requires
            old(self).wf(),
        ensures
            final(self).wf(),
            r == label_code(lower_of(label@)),
            final(self)@ == match r {
                Some(code) => HostView { keys: keys_after(old(self)@.keys, PhysicalKey::Code(code), state), ..old(self)@ },
                None => old(self)@,
            },
    {
        let code = key_to_keycode(label);
        if let Some(c) = code {
            self.key(PhysicalKey::Code(c), state);
        }
        code
    }

    /// Takes in one window event and says what the event loop does next.
    pub fn handle(&mut self, event: &HostEvent) -> (r: Reaction)
        requires
            old(self).wf(),
        ensures
            final(self).wf(),
            (final(self)@, r) == step(old(self)@, *event),
    {
        match event {
            HostEvent::CloseRequested => Reaction::Exit,
            HostEvent::Key { key, state, escape } => {
                self.key(*key, *state);
                match state {
                    ElementState::Pressed if *escape => Reaction::Exit,
                    _ => Reaction::Continue,
                }
            },
            HostEvent::Focused(focused) => {
                if !*focused {
                    self.pressed_keys.clear();
                }
                Reaction::Continue
            },
            HostEvent::Resized { width, height } => {
                if self.resize(*width as i64, *height as i64) {
                    Reaction::Resized
                } else {
                    Reaction::Continue
                }
            },
            HostEvent::CursorMoved { x, y } => {
                self.cursor.move_to(*x, *y, self.width, self.height);
                Reaction::Continue
            },
            HostEvent::MouseInput { state, button } => {
                self.cursor.button(*state, *button);
                Reaction::Continue
            },
            HostEvent::RedrawRequested => Reaction::Redraw,
            HostEvent::Other => Reaction::Continue,
        }
    }
}

} // verus!
