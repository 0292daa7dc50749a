//! Tests of the input router: key binding, drag gating, drag notifications.

use solar_system::camera_control::{CameraControl, Position};
use solar_system::movement::Change;
use solar_system::movement_control::{BoundKey, DeviceInput, MovementControl, WindowInput};

fn camera_at_origin() -> CameraControl {
    CameraControl::new(Position { x: 0, y: 0, z: 0 }, 0, 0)
}

#[test]
fn right_mouse_toggles_drag_and_notifies() {
    let mut router = MovementControl::new();
    let mut cam = camera_at_origin();
    assert!(!router.mouse_pressed);
    let r = router.process_window_event(&mut cam, 0, WindowInput::RightMouseButton {
        pressed: true,
    });
    assert_eq!(r, Some(true));
    assert!(router.mouse_pressed);
    let r = router.process_window_event(&mut cam, 10, WindowInput::RightMouseButton {
        pressed: false,
    });
    assert_eq!(r, Some(false));
    assert!(!router.mouse_pressed);
}

#[test]
fn motion_while_not_dragging_is_discarded() {
    let mut router = MovementControl::new();
    let mut cam = camera_at_origin();
    let before = cam;
    router.process_device_event(&mut cam, 0, DeviceInput::MouseMotion {
        delta_x: 100,
        delta_y: 50,
    });
    assert_eq!(cam, before);
}

#[test]
fn motion_while_dragging_rotates() {
    let mut router = MovementControl::new();
    let mut cam = camera_at_origin();
    router.process_window_event(&mut cam, 0, WindowInput::RightMouseButton { pressed: true });
    router.process_device_event(&mut cam, 0, DeviceInput::MouseMotion {
        delta_x: 100,
        delta_y: 50,
    });
    assert_eq!(cam.azimuth, 1700);
    assert_eq!(cam.zenith, 50);
}

#[test]
fn keys_start_and_stop_their_axes() {
    let mut router = MovementControl::new();
    let mut cam = camera_at_origin();
    let r = router.process_window_event(&mut cam, 1000, WindowInput::Keyboard {
        key: BoundKey::KeyW,
        pressed: true,
        repeat: false,
    });
    assert_eq!(r, None);
    assert_eq!(cam.movements.forward, Change::Positive { init: 1000, last: 1000 });
    router.process_window_event(&mut cam, 1500, WindowInput::Keyboard {
        key: BoundKey::KeyA,
        pressed: true,
        repeat: false,
    });
    assert_eq!(cam.movements.right, Change::Negative { init: 1500, last: 1500 });
    router.process_window_event(&mut cam, 2000, WindowInput::Keyboard {
        key: BoundKey::Space,
        pressed: true,
        repeat: false,
    });
    assert_eq!(cam.movements.up, Change::Positive { init: 2000, last: 2000 });
    router.process_window_event(&mut cam, 2500, WindowInput::Keyboard {
        key: BoundKey::KeyW,
        pressed: false,
        repeat: false,
    });
    assert_eq!(cam.movements.forward, Change::Idle);
    router.process_window_event(&mut cam, 3000, WindowInput::Keyboard {
        key: BoundKey::ControlLeft,
        pressed: true,
        repeat: false,
    });
    assert_eq!(cam.movements.up, Change::Negative { init: 3000, last: 3000 });
    router.process_window_event(&mut cam, 3500, WindowInput::Keyboard {
        key: BoundKey::KeyS,
        pressed: true,
        repeat: false,
    });
    assert_eq!(cam.movements.forward, Change::Negative { init: 3500, last: 3500 });
    router.process_window_event(&mut cam, 4000, WindowInput::Keyboard {
        key: BoundKey::KeyD,
        pressed: true,
        repeat: false,
    });
    assert_eq!(cam.movements.right, Change::Positive { init: 4000, last: 4000 });
}

#[test]
fn repeated_key_events_are_ignored() {
    let mut router = MovementControl::new();
    let mut cam = camera_at_origin();
    router.process_window_event(&mut cam, 1000, WindowInput::Keyboard {
        key: BoundKey::KeyW,
        pressed: true,
        repeat: false,
    });
    let before = cam;
    let r = router.process_window_event(&mut cam, 2000, WindowInput::Keyboard {
        key: BoundKey::KeyW,
        pressed: true,
        repeat: true,
    });
    assert_eq!(r, None);
    assert_eq!(cam, before);
}

#[test]
fn other_events_change_nothing() {
    let mut router = MovementControl::new();
    let mut cam = camera_at_origin();
    let before = cam;
    let r = router.process_window_event(&mut cam, 0, WindowInput::Other);
    assert_eq!(r, None);
    assert_eq!(cam, before);
    router.process_device_event(&mut cam, 0, DeviceInput::Other);
    assert_eq!(cam, before);
}

#[test]
fn releasing_drag_key_mid_drag_stops_displacement() {
    // Movement started mid-drag and stopped must add nothing afterwards.
    let mut router = MovementControl::new();
    let mut cam = camera_at_origin();
    router.process_window_event(&mut cam, 0, WindowInput::RightMouseButton { pressed: true });
    router.process_window_event(&mut cam, 0, WindowInput::Keyboard {
        key: BoundKey::KeyW,
        pressed: true,
        repeat: false,
    });
    router.process_device_event(&mut cam, 1000, DeviceInput::MouseMotion {
        delta_x: 450,
        delta_y: 0,
    });
    router.process_window_event(&mut cam, 2000, WindowInput::Keyboard {
        key: BoundKey::KeyW,
        pressed: false,
        repeat: false,
    });
    router.process_window_event(&mut cam, 2500, WindowInput::RightMouseButton {
        pressed: false,
    });
    let v1 = cam.snapshot(3000);
    let v2 = cam.snapshot(4000);
    assert_eq!(v1, v2);
    // The first second went along negative Z; the quarter-turn drag to the
    // right then pointed the view along negative X for the second one.
    assert_eq!(v1.z, -1000);
    assert_eq!(v1.x, -31000);
}
