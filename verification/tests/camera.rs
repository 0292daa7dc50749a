//! Tests of the movement integrator and the camera control state.

use solar_system::camera_control::{
    CameraControl, MovementDirection, Movements, Position, ViewState,
};
use solar_system::movement::{curve_units, Change};

fn camera_at_origin() -> CameraControl {
    CameraControl::new(Position { x: 0, y: 0, z: 0 }, 0, 0)
}

#[test]
fn curve_values() {
    assert_eq!(curve_units(0), 0);
    assert_eq!(curve_units(500), 31); // 500^5 / 10^12, truncated
    assert_eq!(curve_units(1000), 1000);
    assert_eq!(curve_units(2000), 32000);
}

#[test]
fn take_on_idle_returns_zero() {
    let mut c = Change::Idle;
    assert_eq!(c.take(0), 0);
    assert_eq!(c.take(12345), 0);
    assert_eq!(c.take(50_000_000), 0);
    assert_eq!(c, Change::Idle);
}

#[test]
fn partition_invariance_concrete() {
    // Sampling in three steps returns the same total as sampling once.
    let mut split = Change::positive(1000);
    let total_split = split.take(1500) + split.take(2000) + split.take(3000);
    let mut whole = Change::positive(1000);
    let total_whole = whole.take(3000);
    assert_eq!(total_split, total_whole);
    assert_eq!(total_whole, 32000); // curve of the whole 2000 ms span
    assert_eq!(total_split, 31 + (1000 - 31) + (32000 - 1000));
}

#[test]
fn negative_direction_negates_distance() {
    let mut c = Change::negative(1000);
    assert_eq!(c.take(3000), -32000);
}

#[test]
fn take_after_stop_returns_zero() {
    let mut c = Change::positive(1000);
    let _ = c.take(2000);
    c = Change::Idle; // what a stop stores
    assert_eq!(c.take(3000), 0);
    assert_eq!(c.take(50_000_000), 0);
}

#[test]
fn forward_movement_displaces_along_view() {
    // Looking along negative Z: forward movement decreases z only.
    let mut cam = camera_at_origin();
    cam.move_forw_backw(0, MovementDirection::Positive);
    let v = cam.snapshot(2000);
    assert_eq!(
        v,
        ViewState { x: 0, y: 0, z: -32000, azimuth: 0, zenith: 0 }
    );
}

#[test]
fn sideways_movement_displaces_along_right() {
    let mut cam = camera_at_origin();
    cam.move_sideways(0, MovementDirection::Positive);
    let v = cam.snapshot(2000);
    assert_eq!(v, ViewState { x: 32000, y: 0, z: 0, azimuth: 0, zenith: 0 });
}

#[test]
fn vertical_movement_displaces_along_world_up() {
    let mut cam = camera_at_origin();
    cam.move_vertical(0, MovementDirection::Negative);
    let v = cam.snapshot(2000);
    assert_eq!(v, ViewState { x: 0, y: -32000, z: 0, azimuth: 0, zenith: 0 });
}

#[test]
fn quarter_turn_redirects_forward_movement() {
    // After a quarter turn the same forward movement goes along X.
    let mut cam = CameraControl::new(Position { x: 0, y: 0, z: 0 }, 450, 0);
    cam.move_forw_backw(0, MovementDirection::Positive);
    let v = cam.snapshot(2000);
    assert_eq!(v, ViewState { x: 32000, y: 0, z: 0, azimuth: 450, zenith: 0 });
}

#[test]
fn stopping_one_axis_keeps_the_others() {
    // Stopping the right axis materializes and keeps forward accumulating.
    let mut cam = camera_at_origin();
    cam.move_forw_backw(0, MovementDirection::Positive);
    cam.move_sideways(0, MovementDirection::Positive);
    cam.move_sideways(1000, MovementDirection::Idle);
    let v = cam.snapshot(2000);
    // The right axis contributed only its first second.
    assert_eq!(v.x, 1000);
    assert_eq!(v.z, -32000);
    assert!(matches!(cam.movements.right, Change::Idle));
    assert!(matches!(cam.movements.forward, Change::Positive { .. }));
}

#[test]
fn no_displacement_after_stop() {
    let mut cam = camera_at_origin();
    cam.move_forw_backw(0, MovementDirection::Positive);
    cam.move_forw_backw(2000, MovementDirection::Idle);
    let v1 = cam.snapshot(3000);
    let v2 = cam.snapshot(4000);
    assert_eq!(v1, v2);
    assert_eq!(v1.z, -32000);
}

#[test]
fn snapshot_idempotent() {
    let mut cam = camera_at_origin();
    cam.move_forw_backw(0, MovementDirection::Positive);
    cam.rotate(500, 30, -20);
    let v1 = cam.snapshot(2000);
    let v2 = cam.snapshot(2000);
    assert_eq!(v1, v2);
    let c1 = cam;
    let _ = cam.snapshot(2000);
    assert_eq!(c1, cam);
}

#[test]
fn rotate_wraps_azimuth() {
    // A positive pixel delta yaws towards negative X: the azimuth falls.
    let mut cam = camera_at_origin();
    cam.rotate(0, -10, 0);
    assert_eq!(cam.azimuth, 10);
    cam.rotate(0, 20, 0);
    assert_eq!(cam.azimuth, 1790);
    cam.rotate(0, 3600, 0);
    assert_eq!(cam.azimuth, 1790);
}

#[test]
fn rotate_clamps_zenith() {
    let mut cam = camera_at_origin();
    cam.rotate(0, 0, 500);
    assert_eq!(cam.zenith, 441);
    cam.rotate(0, 0, 100);
    assert_eq!(cam.zenith, 441);
    cam.rotate(0, 0, -1000);
    assert_eq!(cam.zenith, -441);
    cam.rotate(0, 0, 10);
    assert_eq!(cam.zenith, -431);
}

#[test]
fn movement_direction_of_key_state() {
    assert_eq!(MovementDirection::positive(true), MovementDirection::Positive);
    assert_eq!(MovementDirection::positive(false), MovementDirection::Idle);
    assert_eq!(MovementDirection::negative(true), MovementDirection::Negative);
    assert_eq!(MovementDirection::negative(false), MovementDirection::Idle);
}

#[test]
fn default_camera_is_idle_at_origin() {
    let cam = CameraControl::default();
    assert_eq!(cam.position, Position { x: 0, y: 0, z: 0 });
    assert_eq!(cam.azimuth, 0);
    assert_eq!(cam.zenith, 0);
    assert_eq!(
        cam.movements,
        Movements { forward: Change::Idle, right: Change::Idle, up: Change::Idle }
    );
}
