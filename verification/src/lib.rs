//! Core logic of an interactive solar-system viewer: time-integrated camera
//! movement, camera orientation with a clamped zenith, routing of raw input
//! events, and composition of per-body orbital transforms.
//!
//! All quantities are modelled as plain integers: timestamps in milliseconds,
//! angles in units of a fifth of a degree (one mouse pixel), distances in
//! fixed-point scene units. The rendering layer turns these into floating
//! point matrices; everything it needs is computed and specified here.

pub mod angle;
pub mod camera_control;
pub mod movement;
pub mod movement_control;
pub mod render_solar_object;
pub mod solar_object;
pub mod sphere;
