use render_host::cursor::{normalized, CursorState, Position};
use render_host::host::{pointer_motion, HostEvent, HostState, Reaction};
use render_host::keys::{key_to_keycode, keycode_for_lowered, PressedKeys};
use winit::event::{ElementState, MouseButton};
use winit::keyboard::{KeyCode, NativeKeyCode, PhysicalKey};

fn as_f64(num: i64, den: i64) -> f64 {
    num as f64 / den as f64
}

fn press(key: PhysicalKey) -> HostEvent {
    HostEvent::Key { key, state: ElementState::Pressed, escape: false }
}

fn release(key: PhysicalKey) -> HostEvent {
    HostEvent::Key { key, state: ElementState::Released, escape: false }
}

#[test]
fn degenerate_resize_keeps_size() {
    let mut state = HostState::new(800, 600);
    assert_eq!(state.handle(&HostEvent::Resized { width: 0, height: 0 }), Reaction::Continue);
    assert_eq!((state.width, state.height), (800, 600));
    assert_eq!(state.handle(&HostEvent::Resized { width: 0, height: 300 }), Reaction::Continue);
    assert_eq!(state.handle(&HostEvent::Resized { width: 300, height: 0 }), Reaction::Continue);
    assert_eq!((state.width, state.height), (800, 600));
}

#[test]
fn negative_resize_is_ignored() {
    let mut state = HostState::new(800, 600);
    assert!(!state.resize(-1, 600));
    assert!(!state.resize(800, -20));
    assert_eq!((state.width, state.height), (800, 600));
}

#[test]
fn accepted_resize_takes_new_size() {
    let mut state = HostState::new(800, 600);
    assert_eq!(state.handle(&HostEvent::Resized { width: 1024, height: 768 }), Reaction::Resized);
    assert_eq!((state.width, state.height), (1024, 768));
    assert!(state.resize(1, 2));
    assert_eq!((state.width, state.height), (1, 2));
}

#[test]
fn focus_loss_clears_held_keys() {
    let mut state = HostState::new(800, 600);
    let w = PhysicalKey::Code(KeyCode::KeyW);
    assert_eq!(state.handle(&press(w)), Reaction::Continue);
    assert!(state.pressed_keys.contains(&w));
    assert_eq!(state.handle(&HostEvent::Focused(false)), Reaction::Continue);
    assert!(!state.pressed_keys.contains(&w));
    assert_eq!(state.pressed_keys.len(), 0);
}

#[test]
fn focus_gain_keeps_held_keys() {
    let mut state = HostState::new(800, 600);
    let a = PhysicalKey::Code(KeyCode::KeyA);
    state.handle(&press(a));
    state.handle(&HostEvent::Focused(true));
    assert!(state.pressed_keys.contains(&a));
}

#[test]
fn press_and_release_track_each_key() {
    let mut state = HostState::new(800, 600);
    let w = PhysicalKey::Code(KeyCode::KeyW);
    let s = PhysicalKey::Code(KeyCode::KeyS);
    let odd = PhysicalKey::Unidentified(NativeKeyCode::Xkb(300));
    state.handle(&press(w));
    state.handle(&press(w));
    state.handle(&press(s));
    state.handle(&press(odd));
    assert_eq!(state.pressed_keys.len(), 3);
    state.handle(&release(w));
    assert!(!state.pressed_keys.contains(&w));
    assert!(state.pressed_keys.contains(&s));
    assert!(state.pressed_keys.contains(&odd));
    assert_eq!(state.pressed_keys.len(), 2);
    state.handle(&release(PhysicalKey::Code(KeyCode::KeyD)));
    assert_eq!(state.pressed_keys.len(), 2);
}

#[test]
fn pressed_keys_set_operations() {
    let mut keys = PressedKeys::new();
    let d = PhysicalKey::Code(KeyCode::KeyD);
    assert_eq!(keys.len(), 0);
    keys.insert(d);
    keys.insert(d);
    assert_eq!(keys.len(), 1);
    keys.remove(&d);
    assert!(!keys.contains(&d));
    keys.insert(d);
    keys.clear();
    assert_eq!(keys.len(), 0);
}

#[test]
fn escape_press_and_close_exit() {
    let mut state = HostState::new(800, 600);
    let esc = PhysicalKey::Code(KeyCode::Escape);
    assert_eq!(state.handle(&HostEvent::Key { key: esc, state: ElementState::Released, escape: true }), Reaction::Continue);
    assert_eq!(state.handle(&HostEvent::Key { key: esc, state: ElementState::Pressed, escape: true }), Reaction::Exit);
    assert!(state.pressed_keys.contains(&esc));
    assert_eq!(state.handle(&HostEvent::CloseRequested), Reaction::Exit);
    assert_eq!(state.handle(&HostEvent::RedrawRequested), Reaction::Redraw);
    assert_eq!(state.handle(&HostEvent::Other), Reaction::Continue);
}

#[test]
fn cursor_at_centre_is_origin() {
    let mut state = HostState::new(800, 600);
    state.handle(&HostEvent::CursorMoved { x: 400, y: 300 });
    let p = state.cursor.position;
    assert_eq!(p.x_num, 0);
    assert_eq!(p.y_num, 0);
    assert_eq!(as_f64(p.x_num, p.x_den), 0.0);
    assert_eq!(as_f64(p.y_num, p.y_den), 0.0);
}

#[test]
fn cursor_corners() {
    let top_left = normalized(0, 0, 800, 600);
    assert_eq!(top_left, Position { x_num: -800, x_den: 800, y_num: 600, y_den: 600 });
    let bottom_right = normalized(800, 600, 800, 600);
    assert_eq!(as_f64(bottom_right.x_num, bottom_right.x_den), 1.0);
    assert_eq!(as_f64(bottom_right.y_num, bottom_right.y_den), -1.0);
    let p = normalized(200, 450, 800, 600);
    assert_eq!(as_f64(p.x_num, p.x_den), -0.5);
    assert_eq!(as_f64(p.y_num, p.y_den), -0.5);
}

#[test]
fn cursor_normalization_is_stable() {
    let mut state = HostState::new(640, 480);
    state.handle(&HostEvent::CursorMoved { x: 17, y: 401 });
    let first = state.cursor;
    state.handle(&HostEvent::CursorMoved { x: 17, y: 401 });
    assert_eq!(state.cursor, first);
    let p = first.position;
    assert!(p.x_num.abs() <= p.x_den && p.y_num.abs() <= p.y_den);
}

#[test]
fn cursor_uses_size_at_move_time() {
    let mut state = HostState::new(800, 600);
    state.handle(&HostEvent::CursorMoved { x: 400, y: 300 });
    state.handle(&HostEvent::Resized { width: 400, height: 300 });
    assert_eq!(state.cursor.position.x_num, 0);
    state.handle(&HostEvent::CursorMoved { x: 400, y: 300 });
    assert_eq!(as_f64(state.cursor.position.x_num, state.cursor.position.x_den), 1.0);
    assert_eq!(as_f64(state.cursor.position.y_num, state.cursor.position.y_den), -1.0);
}

#[test]
fn drag_origin_follows_primary_button() {
    let mut state = HostState::new(800, 600);
    state.handle(&HostEvent::CursorMoved { x: 480, y: 330 });
    state.handle(&HostEvent::MouseInput { state: ElementState::Pressed, button: MouseButton::Left });
    let origin = state.cursor.dragging_from.expect("a drag has begun");
    assert!((as_f64(origin.x_num, origin.x_den) - 0.2).abs() < 1e-9);
    assert!((as_f64(origin.y_num, origin.y_den) + 0.1).abs() < 1e-9);
    state.handle(&HostEvent::CursorMoved { x: 100, y: 50 });
    assert_eq!(state.cursor.dragging_from, Some(origin));
    state.handle(&HostEvent::MouseInput { state: ElementState::Released, button: MouseButton::Left });
    assert_eq!(state.cursor.dragging_from, None);
}

#[test]
fn second_press_keeps_drag_origin() {
    let mut cursor = CursorState::new();
    cursor.move_to(0, 0, 10, 10);
    cursor.button(ElementState::Pressed, MouseButton::Right);
    let origin = cursor.dragging_from;
    cursor.move_to(5, 5, 10, 10);
    cursor.button(ElementState::Pressed, MouseButton::Middle);
    assert_eq!(cursor.dragging_from, origin);
    cursor.button(ElementState::Released, MouseButton::Left);
    assert_eq!(cursor.dragging_from, None);
}

#[test]
fn other_buttons_do_not_drag() {
    let mut cursor = CursorState::new();
    cursor.button(ElementState::Pressed, MouseButton::Back);
    assert_eq!(cursor.dragging_from, None);
    cursor.button(ElementState::Pressed, MouseButton::Left);
    cursor.button(ElementState::Released, MouseButton::Other(7));
    assert!(cursor.dragging_from.is_some());
}

#[test]
fn key_labels_ignore_case() {
    assert_eq!(key_to_keycode("W"), Some(KeyCode::KeyW));
    assert_eq!(key_to_keycode("w"), Some(KeyCode::KeyW));
    assert_eq!(key_to_keycode("Shift"), Some(KeyCode::ShiftLeft));
    assert_eq!(key_to_keycode("A"), Some(KeyCode::KeyA));
    assert_eq!(key_to_keycode("s"), Some(KeyCode::KeyS));
    assert_eq!(key_to_keycode("D"), Some(KeyCode::KeyD));
    assert_eq!(key_to_keycode("q"), None);
    assert_eq!(key_to_keycode("Enter"), None);
    assert_eq!(key_to_keycode(""), None);
}

#[test]
fn lowered_label_lookup() {
    assert_eq!(keycode_for_lowered(&"shift".to_string()), Some(KeyCode::ShiftLeft));
    assert_eq!(keycode_for_lowered(&"SHIFT".to_string()), None);
}

#[test]
fn key_labels_update_held_keys() {
    let mut state = HostState::new(1024, 1024);
    assert_eq!(state.key_label("W", ElementState::Pressed), Some(KeyCode::KeyW));
    assert!(state.pressed_keys.contains(&PhysicalKey::Code(KeyCode::KeyW)));
    assert_eq!(state.key_label("Tab", ElementState::Pressed), None);
    assert_eq!(state.pressed_keys.len(), 1);
    assert_eq!(state.key_label("w", ElementState::Released), Some(KeyCode::KeyW));
    assert_eq!(state.pressed_keys.len(), 0);
}

#[test]
fn pointer_motion_is_doubled() {
    assert_eq!(pointer_motion(3, -4), (6, -8));
    assert_eq!(pointer_motion(i32::MIN, 0), (2 * i32::MIN as i64, 0));
}
