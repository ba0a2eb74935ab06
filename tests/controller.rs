use fly_camera::bindings::{is_held, KeyBindings};
use fly_camera::capture::{CaptureController, CursorCaptureState};
use fly_camera::frame::FlyController;
use fly_camera::look::LookController;
use fly_camera::movement::{movement_intent, MoveIntent};

const W: u32 = 22;
const S: u32 = 18;
const D: u32 = 3;
const A: u32 = 0;
const SPACE: u32 = 76;
const SHIFT: u32 = 115;
const ESCAPE: u32 = 36;
const OTHER: u32 = 500;

fn bindings() -> KeyBindings {
    KeyBindings::new(W, S, D, A, SPACE, SHIFT, ESCAPE)
}

fn intent(forward: i8, right: i8, up: i8) -> MoveIntent {
    MoveIntent { forward, right, up }
}

#[test]
fn held_lookup() {
    assert!(is_held(&vec![1, 2, 3], 2));
    assert!(!is_held(&vec![1, 2, 3], 4));
    assert!(!is_held(&vec![], 0));
}

#[test]
fn starts_captured_and_confined() {
    let c = FlyController::new(bindings());
    assert_eq!(c.capture.state, CursorCaptureState::Captured);
    let v = c.capture.state.visuals();
    assert!(v.confined);
    assert!(!v.visible);
}

#[test]
fn toggle_held_five_frames_toggles_once() {
    let mut c = FlyController::new(bindings());
    let mut toggles = 0;
    for _ in 0..5 {
        let d = c.frame(&vec![ESCAPE], 0);
        if d.toggled {
            toggles += 1;
        }
    }
    assert_eq!(toggles, 1);
    assert_eq!(c.capture.state, CursorCaptureState::Free);
}

#[test]
fn toggle_fires_on_first_frame_of_press() {
    let mut c = CaptureController::new();
    assert!(!c.update(&vec![], &bindings()));
    assert!(c.update(&vec![ESCAPE, W], &bindings()));
    assert_eq!(c.state, CursorCaptureState::Free);
    assert!(!c.update(&vec![ESCAPE], &bindings()));
    assert!(!c.update(&vec![], &bindings()));
    assert!(c.update(&vec![ESCAPE], &bindings()));
    assert_eq!(c.state, CursorCaptureState::Captured);
}

#[test]
fn free_cursor_is_visible_and_unconfined() {
    let v = CursorCaptureState::Free.visuals();
    assert!(v.visible);
    assert!(!v.confined);
    assert_eq!(CursorCaptureState::Free.toggled(), CursorCaptureState::Captured);
}

#[test]
fn free_cursor_does_not_move() {
    let m = movement_intent(&vec![W], &bindings(), CursorCaptureState::Free);
    assert!(m.is_zero());
    assert_eq!(m, intent(0, 0, 0));
}

#[test]
fn free_frame_moves_and_turns_nothing() {
    let mut c = FlyController::new(bindings());
    let d = c.frame(&vec![ESCAPE], 0);
    assert!(d.toggled);
    let d = c.frame(&vec![W, D, SPACE], 4);
    assert!(d.movement.is_zero());
    assert!(!d.look.apply);
    assert_eq!((d.look.start, d.look.end), (0, 4));
}

#[test]
fn forward_and_right_is_diagonal() {
    let m = movement_intent(&vec![W, D], &bindings(), CursorCaptureState::Captured);
    assert_eq!(m, intent(1, 1, 0));
    assert_eq!(m.length_squared(), 2);
    let single = movement_intent(&vec![W], &bindings(), CursorCaptureState::Captured);
    assert_eq!(single, intent(1, 0, 0));
    assert_eq!(single.length_squared(), 1);
}

#[test]
fn opposing_keys_cancel() {
    let b = bindings();
    let m = movement_intent(&vec![W, S], &b, CursorCaptureState::Captured);
    assert_eq!(m, intent(0, 0, 0));
    let m = movement_intent(&vec![D, A, SPACE], &b, CursorCaptureState::Captured);
    assert_eq!(m, intent(0, 0, 1));
    let m = movement_intent(&vec![S, A, SHIFT, OTHER], &b, CursorCaptureState::Captured);
    assert_eq!(m, intent(-1, -1, -1));
    assert_eq!(m.length_squared(), 3);
}

#[test]
fn no_keys_no_movement() {
    let m = movement_intent(&vec![OTHER, ESCAPE], &bindings(), CursorCaptureState::Captured);
    assert!(m.is_zero());
    assert_eq!(m.length_squared(), 0);
}

#[test]
fn shared_key_goes_to_first_action() {
    let b = KeyBindings::new(W, W, D, D, SPACE, SPACE, ESCAPE);
    let m = movement_intent(&vec![W, D, SPACE], &b, CursorCaptureState::Captured);
    assert_eq!(m, intent(1, 1, 1));
}

#[test]
fn motion_events_read_once() {
    let mut l = LookController::new();
    let b = l.take_pending(3, CursorCaptureState::Captured);
    assert_eq!((b.start, b.end, b.apply), (0, 3, true));
    let b = l.take_pending(3, CursorCaptureState::Captured);
    assert_eq!((b.start, b.end), (3, 3));
    let b = l.take_pending(7, CursorCaptureState::Free);
    assert_eq!((b.start, b.end, b.apply), (3, 7, false));
    assert_eq!(l.consumed, 7);
    let b = l.take_pending(2, CursorCaptureState::Captured);
    assert_eq!((b.start, b.end), (2, 2));
}

#[test]
fn captured_frame_moves_and_turns() {
    let mut c = FlyController::new(bindings());
    let d = c.frame(&vec![W, D], 2);
    assert!(!d.toggled);
    assert_eq!(d.movement, intent(1, 1, 0));
    assert!(d.look.apply);
    assert_eq!((d.look.start, d.look.end), (0, 2));
    let d = c.frame(&vec![], 5);
    assert_eq!((d.look.start, d.look.end), (2, 5));
}
