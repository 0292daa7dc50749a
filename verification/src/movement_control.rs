//! Routing of raw input events to camera operations.
//!
//! Key presses and releases of the fixed binding start and stop the three
//! movement axes, each stamped with the event's own time. The right mouse
//! button toggles a dragging flag and reports the toggle to the caller, which
//! captures or releases the pointer. Mouse motion turns the view, but only
//! while dragging: motion received while not dragging is discarded.

use vstd::prelude::*;

use crate::camera_control::{CameraControl, MovementDirection, ROTATE_DELTA_LIMIT};
use crate::movement::TIME_LIMIT_MS;

verus! {

/// The keys of the movement binding.
#[derive(Debug, Clone, Copy, PartialEq, Eq, Structural)]
pub enum BoundKey {
    KeyW,
    KeyS,
    KeyA,
    KeyD,
    Space,
    ControlLeft,
}

/// A window event as the router sees it: a key of the binding changing state,
/// the right mouse button changing state, or anything else.
#[derive(Debug, Clone, Copy, PartialEq, Eq, Structural)]
pub enum WindowInput {
    Keyboard { key: BoundKey, pressed: bool, repeat: bool },
    RightMouseButton { pressed: bool },
    Other,
}

/// A device event as the router sees it: relative mouse motion in pixels, or
/// anything else.
#[derive(Debug, Clone, Copy, PartialEq, Eq, Structural)]
pub enum DeviceInput {
    MouseMotion { delta_x: i64, delta_y: i64 },
    Other,
}

/// The direction a positively bound key requests in the given state.
pub open spec fn direction_positive(pressed: bool) -> MovementDirection {
    if pressed {
        MovementDirection::Positive
    } else {
        MovementDirection::Idle
    }
}

/// The direction a negatively bound key requests in the given state.
pub open spec fn direction_negative(pressed: bool) -> MovementDirection {
    if pressed {
        MovementDirection::Negative
    } else {
        MovementDirection::Idle
    }
}

/// The camera state after a key of the binding changes state at `now`:
/// pending movement is materialized, then the axis of the key is restarted or
/// stopped.
pub open spec fn key_effect(camera: CameraControl, now: u64, key: BoundKey, pressed: bool)
    -> CameraControl {
    let m = camera.materialized(now);
    match key {
        BoundKey::KeyW => CameraControl {
            movements: crate::camera_control::Movements {
                forward: direction_positive(pressed).change_at(now),
                ..m.movements
            },
            ..m
        },
        BoundKey::KeyS => CameraControl {
            movements: crate::camera_control::Movements {
                forward: direction_negative(pressed).change_at(now),
                ..m.movements
            },
            ..m
        },
        BoundKey::KeyA => CameraControl {
            movements: crate::camera_control::Movements {
                right: direction_negative(pressed).change_at(now),
                ..m.movements
            },
            ..m
        },
        BoundKey::KeyD => CameraControl {
            movements: crate::camera_control::Movements {
                right: direction_positive(pressed).change_at(now),
                ..m.movements
            },
            ..m
        },
        BoundKey::Space => CameraControl {
            movements: crate::camera_control::Movements {
                up: direction_positive(pressed).change_at(now),
                ..m.movements
            },
            ..m
        },
        BoundKey::ControlLeft => CameraControl {
            movements: crate::camera_control::Movements {
                up: direction_negative(pressed).change_at(now),
                ..m.movements
            },
            ..m
        },
    }
}

/// The router: remembers whether the right mouse button is held, which gates
/// rotation.
#[derive(Debug, Clone, Copy, PartialEq, Eq, Structural)]
pub struct MovementControl {
    pub mouse_pressed: bool,
}

impl MovementControl {
    /// A router with the mouse not held.
    pub fn new() -> (m: MovementControl)
        ensures
            m == (MovementControl { mouse_pressed: false }),
    {
        MovementControl { mouse_pressed: false }
    }

    /// Routes one window event. A non-repeated key of the binding starts or
    /// stops its axis; a right-mouse change updates the dragging flag and is
    /// reported back so the caller can capture or release the pointer; every
    /// other event changes nothing.
    pub fn process_window_event(
        &mut self,
        camera: &mut CameraControl,
        now: u64,
        event: WindowInput,
    ) -> (drag_change: Option<bool>)
        requires
            old(camera).wf(),
            old(camera).in_sync(now),
            now <= TIME_LIMIT_MS,
        ensures
            final(camera).wf(),
            final(camera).in_sync(now),
            match event {
                WindowInput::Keyboard { key, pressed, repeat } => {
                    &&& *final(self) == *old(self)
                    &&& drag_change is None
                    &&& if repeat {
                        *final(camera) == *old(camera)
                    } else {
                        *final(camera) == key_effect(*old(camera), now, key, pressed)
                    }
                },
                WindowInput::RightMouseButton { pressed } => {
                    &&& final(self).mouse_pressed == pressed
                    &&& *final(camera) == *old(camera)
                    &&& drag_change == Some(pressed)
                },
                WindowInput::Other => {
                    &&& *final(self) == *old(self)
                    &&& *final(camera) == *old(camera)
                    &&& drag_change is None
                },
            },
    {
        match event {
            WindowInput::Keyboard { key, pressed, repeat } => {
                if !repeat {
                    match key {
                        BoundKey::KeyW => camera.move_forw_backw(
                            now,
                            MovementDirection::positive(pressed),
                        ),
                        BoundKey::KeyS => camera.move_forw_backw(
                            now,
                            MovementDirection::negative(pressed),
                        ),
                        BoundKey::KeyA => camera.move_sideways(
                            now,
                            MovementDirection::negative(pressed),
                        ),
                        BoundKey::KeyD => camera.move_sideways(
                            now,
                            MovementDirection::positive(pressed),
                        ),
                        BoundKey::Space => camera.move_vertical(
                            now,
                            MovementDirection::positive(pressed),
                        ),
                        BoundKey::ControlLeft => camera.move_vertical(
                            now,
                            MovementDirection::negative(pressed),
                        ),
                    }
                }
                None
            }
            WindowInput::RightMouseButton { pressed } => {
                self.mouse_pressed = pressed;
                Some(pressed)
            }
            WindowInput::Other => None,
        }
    }

    /// Routes one device event. Mouse motion turns the view only while the
    /// right mouse button is held; otherwise the event is discarded.
    pub fn process_device_event(
        &mut self,
        camera: &mut CameraControl,
        now: u64,
        event: DeviceInput,
    )
        requires
            old(camera).wf(),
            old(camera).in_sync(now),
            now <= TIME_LIMIT_MS,
            event matches DeviceInput::MouseMotion { delta_x, delta_y } ==> {
                &&& -ROTATE_DELTA_LIMIT <= delta_x <= ROTATE_DELTA_LIMIT
                &&& -ROTATE_DELTA_LIMIT <= delta_y <= ROTATE_DELTA_LIMIT
            },
        ensures
            *final(self) == *old(self),
            final(camera).wf(),
            final(camera).in_sync(now),
            match event {
                DeviceInput::MouseMotion { delta_x, delta_y } => {
                    if old(self).mouse_pressed {
                        *final(camera) == old(camera).materialized(now).rotated(
                            delta_x as int,
                            delta_y as int,
                        )
                    } else {
                        *final(camera) == *old(camera)
                    }
                },
                DeviceInput::Other => *final(camera) == *old(camera),
            },
    {
        match event {
            DeviceInput::MouseMotion { delta_x, delta_y } => {
                if self.mouse_pressed {
                    camera.rotate(now, delta_x, delta_y);
                }
            }
            DeviceInput::Other => {}
        }
    }
}

} // verus!
