//! Camera state: world position, view orientation, and the three movement
//! axes.
//!
//! The view direction is kept as an azimuth and a zenith angle; the unit view
//! vector they determine is `(cos z * sin a, sin z, -cos z * cos a)`, so the
//! direction is unit length by construction and the zenith clamp keeps it
//! away from the poles. Every operation first materializes the pending
//! movement of all three axes into the position, so that changing one axis or
//! turning the view never loses distance accumulated on another.

use vstd::prelude::*;

use crate::angle::{
    cosine, cosine_units, half_sine, lemma_arch_product_bound, lemma_half_sine_bounds, sine,
    sine_units, TRIG_SCALE, TURN_UNITS,
};
use crate::movement::{Change, SAMPLE_LIMIT_UNITS, TIME_LIMIT_MS};

verus! {

/// The zenith angle is clamped to this many angle units on either side of the
/// horizon: 441 units are 88.2 degrees, 0.49 of a half turn.
pub const ZENITH_LIMIT_UNITS: i64 = 441;

/// World coordinates saturate at this magnitude, far beyond any distance the
/// movement curve can cover in a session.
pub const POSITION_LIMIT: i128 = 1_000_000_000_000_000_000_000_000_000_000_000;

/// Mouse deltas handed to `rotate` are bounded by this many pixels.
pub const ROTATE_DELTA_LIMIT: i64 = 1_000_000;

/// The fixed-point sine of a signed angle within a quarter turn of zero.
pub open spec fn signed_sine(z: int) -> int {
    if z >= 0 {
        half_sine(z)
    } else {
        -half_sine(-z)
    }
}

/// The fixed-point cosine of a signed angle within a quarter turn of zero.
pub open spec fn signed_cosine(z: int) -> int {
    half_sine(z + 450)
}

/// Evaluates the fixed-point sine of a signed angle.
fn signed_sine_units(z: i64) -> (r: i64)
    requires
        -450 <= z <= 450,
    ensures
        r == signed_sine(z as int),
        -TRIG_SCALE <= r <= TRIG_SCALE,
{
    if z >= 0 {
        proof {
            lemma_half_sine_bounds(z as int);
            lemma_arch_product_bound(z as int);
        }
        let p = (z as u64) * (900 - z as u64);
        (160_000 * p / (4_050_000 - 4 * p)) as i64
    } else {
        proof {
            lemma_half_sine_bounds(-z as int);
            lemma_arch_product_bound(-z as int);
        }
        let v = (-z) as u64;
        let p = v * (900 - v);
        -((160_000 * p / (4_050_000 - 4 * p)) as i64)
    }
}

/// Evaluates the fixed-point cosine of a signed angle.
fn signed_cosine_units(z: i64) -> (r: i64)
    requires
        -450 <= z <= 450,
    ensures
        r == signed_cosine(z as int),
        0 <= r <= TRIG_SCALE,
{
    proof {
        lemma_half_sine_bounds((z + 450) as int);
        lemma_arch_product_bound((z + 450) as int);
    }
    let u = (z + 450) as u64;
    let p = u * (900 - u);
    (160_000 * p / (4_050_000 - 4 * p)) as i64
}

/// Division that truncates towards zero, as the machine division does.
pub open spec fn div_trunc(num: int, den: int) -> int {
    if num >= 0 {
        num / den
    } else {
        -((-num) / den)
    }
}

/// A coordinate clamped to the world bounds.
pub open spec fn clamp_coord(v: int) -> int {
    if v > POSITION_LIMIT {
        POSITION_LIMIT as int
    } else if v < -POSITION_LIMIT {
        -POSITION_LIMIT as int
    } else {
        v
    }
}

/// Clamps a computed coordinate to the world bounds.
fn clamp_coord_units(v: i128) -> (r: i128)
    ensures
        r == clamp_coord(v as int),
{
    if v > POSITION_LIMIT {
        POSITION_LIMIT
    } else if v < -POSITION_LIMIT {
        -POSITION_LIMIT
    } else {
        v
    }
}

/// The displacement contributed along one world axis by a view-frame
/// direction with two fixed-point trigonometric factors.
fn axis_delta2(ta: i64, tb: i64, d: i128) -> (r: i128)
    requires
        -TRIG_SCALE <= ta <= TRIG_SCALE,
        -TRIG_SCALE <= tb <= TRIG_SCALE,
        -SAMPLE_LIMIT_UNITS <= d <= SAMPLE_LIMIT_UNITS,
    ensures
        r == div_trunc(ta * tb * d, 100_000_000),
        -SAMPLE_LIMIT_UNITS <= r <= SAMPLE_LIMIT_UNITS,
{
    proof {
        assert(-100_000_000 <= (ta as int) * (tb as int) <= 100_000_000) by (nonlinear_arith)
            requires -10_000 <= ta <= 10_000, -10_000 <= tb <= 10_000;
        assert(-100_000_000 * SAMPLE_LIMIT_UNITS <= (ta as int) * (tb as int) * (d as int)
            <= 100_000_000 * SAMPLE_LIMIT_UNITS) by (nonlinear_arith)
            requires
                -100_000_000 <= (ta as int) * (tb as int) <= 100_000_000,
                -SAMPLE_LIMIT_UNITS <= d <= SAMPLE_LIMIT_UNITS;
    }
    let num = (ta as i128) * (tb as i128) * d;
    proof {
        assert(-SAMPLE_LIMIT_UNITS <= div_trunc(num as int, 100_000_000)
            <= SAMPLE_LIMIT_UNITS) by (nonlinear_arith)
            requires
                -100_000_000 * SAMPLE_LIMIT_UNITS <= num
                    <= 100_000_000 * SAMPLE_LIMIT_UNITS;
    }
    if num >= 0 {
        num / 100_000_000
    } else {
        -((-num) / 100_000_000)
    }
}

/// The displacement contributed along one world axis by a view-frame
/// direction with one fixed-point trigonometric factor.
fn axis_delta1(t: i64, d: i128) -> (r: i128)
    requires
        -TRIG_SCALE <= t <= TRIG_SCALE,
        -SAMPLE_LIMIT_UNITS <= d <= SAMPLE_LIMIT_UNITS,
    ensures
        r == div_trunc(t * d, 10_000),
        -SAMPLE_LIMIT_UNITS <= r <= SAMPLE_LIMIT_UNITS,
{
    proof {
        assert(-10_000 * SAMPLE_LIMIT_UNITS <= (t as int) * (d as int)
            <= 10_000 * SAMPLE_LIMIT_UNITS) by (nonlinear_arith)
            requires
                -10_000 <= t <= 10_000,
                -SAMPLE_LIMIT_UNITS <= d <= SAMPLE_LIMIT_UNITS;
    }
    let num = (t as i128) * d;
    proof {
        assert(-SAMPLE_LIMIT_UNITS <= div_trunc(num as int, 10_000) <= SAMPLE_LIMIT_UNITS)
            by (nonlinear_arith)
            requires -10_000 * SAMPLE_LIMIT_UNITS <= num <= 10_000 * SAMPLE_LIMIT_UNITS;
    }
    if num >= 0 {
        num / 10_000
    } else {
        -((-num) / 10_000)
    }
}

/// A world position in fixed-point scene units.
#[derive(Debug, Clone, Copy, PartialEq, Eq, Structural)]
pub struct Position {
    pub x: i128,
    pub y: i128,
    pub z: i128,
}

/// The three movement axes of the camera, each relative to the current view.
#[derive(Debug, Clone, Copy, PartialEq, Eq, Structural)]
pub struct Movements {
    pub forward: Change,
    pub right: Change,
    pub up: Change,
}

impl Movements {
    /// All three axes have ordered timestamps.
    pub open spec fn wf(self) -> bool {
        self.forward.wf() && self.right.wf() && self.up.wf()
    }

    /// No axis has sampled later than `now`.
    pub open spec fn in_sync(self, now: u64) -> bool {
        self.forward.in_sync(now) && self.right.in_sync(now) && self.up.in_sync(now)
    }

    /// All three axes idle.
    pub open spec fn idle() -> Movements {
        Movements { forward: Change::Idle, right: Change::Idle, up: Change::Idle }
    }
}

/// A requested state change for one movement axis.
#[derive(Debug, Clone, Copy, PartialEq, Eq, Structural)]
pub enum MovementDirection {
    Idle,
    Positive,
    Negative,
}

impl MovementDirection {
    /// The direction of a key bound to positive movement: positive while the
    /// key is down, idle when it is released.
    pub fn positive(pressed: bool) -> (d: MovementDirection)
        ensures
            d == if pressed { MovementDirection::Positive } else { MovementDirection::Idle },
    {
        if pressed {
            MovementDirection::Positive
        } else {
            MovementDirection::Idle
        }
    }

    /// The direction of a key bound to negative movement: negative while the
    /// key is down, idle when it is released.
    pub fn negative(pressed: bool) -> (d: MovementDirection)
        ensures
            d == if pressed { MovementDirection::Negative } else { MovementDirection::Idle },
    {
        if pressed {
            MovementDirection::Negative
        } else {
            MovementDirection::Idle
        }
    }

    /// The axis state that begins at `now` in this direction.
    pub open spec fn change_at(self, now: u64) -> Change {
        match self {
            MovementDirection::Idle => Change::Idle,
            MovementDirection::Positive => Change::Positive { init: now, last: now },
            MovementDirection::Negative => Change::Negative { init: now, last: now },
        }
    }
}

/// What a view snapshot reports: the materialized position and the view
/// orientation, from which the renderer builds its look-to matrix.
#[derive(Debug, Clone, Copy, PartialEq, Eq, Structural)]
pub struct ViewState {
    pub x: i128,
    pub y: i128,
    pub z: i128,
    pub azimuth: u64,
    pub zenith: i64,
}

/// Camera control state.
///
/// Movements are time based: when a movement begins only its timestamp is
/// remembered, and each materialization converts the elapsed time into
/// displacement along the view frame of that moment. Rotation, in contrast,
/// is instantaneous.
#[derive(Debug, Clone, Copy, PartialEq, Eq, Structural)]
pub struct CameraControl {
    pub position: Position,
    pub azimuth: u64,
    pub zenith: i64,
    pub movements: Movements,
}

impl CameraControl {
    /// Angles in range, zenith clamped, coordinates within the world bounds,
    /// movement axes well formed.
    pub open spec fn wf(self) -> bool {
        &&& self.movements.wf()
        &&& self.azimuth < TURN_UNITS
        &&& -ZENITH_LIMIT_UNITS <= self.zenith <= ZENITH_LIMIT_UNITS
        &&& -POSITION_LIMIT <= self.position.x <= POSITION_LIMIT
        &&& -POSITION_LIMIT <= self.position.y <= POSITION_LIMIT
        &&& -POSITION_LIMIT <= self.position.z <= POSITION_LIMIT
    }

    /// No movement axis has sampled later than `now`.
    pub open spec fn in_sync(self, now: u64) -> bool {
        self.movements.in_sync(now)
    }

    /// The state after materializing all pending movement at `now`: each axis
    /// is sampled, and the samples are applied along the view direction, the
    /// right vector `(cos a, 0, sin a)`, and world up.
    pub open spec fn materialized(self, now: u64) -> CameraControl {
        let df = self.movements.forward.take_amount(now);
        let dr = self.movements.right.take_amount(now);
        let du = self.movements.up.take_amount(now);
        let sa = sine(self.azimuth as int);
        let ca = cosine(self.azimuth as int);
        let sz = signed_sine(self.zenith as int);
        let cz = signed_cosine(self.zenith as int);
        CameraControl {
            position: Position {
                x: clamp_coord(
                    self.position.x + div_trunc(cz * sa * df, 100_000_000)
                        + div_trunc(ca * dr, 10_000),
                ) as i128,
                y: clamp_coord(self.position.y + div_trunc(sz * df, 10_000) + du) as i128,
                z: clamp_coord(
                    self.position.z - div_trunc(cz * ca * df, 100_000_000)
                        + div_trunc(sa * dr, 10_000),
                ) as i128,
            },
            azimuth: self.azimuth,
            zenith: self.zenith,
            movements: Movements {
                forward: self.movements.forward.after_take(now),
                right: self.movements.right.after_take(now),
                up: self.movements.up.after_take(now),
            },
        }
    }

    /// The view snapshot this state reports.
    pub open spec fn view(self) -> ViewState {
        ViewState {
            x: self.position.x,
            y: self.position.y,
            z: self.position.z,
            azimuth: self.azimuth,
            zenith: self.zenith,
        }
    }

    /// A camera at the given position and orientation, with no movement
    /// pending.
    pub fn new(position: Position, azimuth: u64, zenith: i64) -> (c: CameraControl)
        requires
            azimuth < TURN_UNITS,
            -ZENITH_LIMIT_UNITS <= zenith <= ZENITH_LIMIT_UNITS,
            -POSITION_LIMIT <= position.x <= POSITION_LIMIT,
            -POSITION_LIMIT <= position.y <= POSITION_LIMIT,
            -POSITION_LIMIT <= position.z <= POSITION_LIMIT,
        ensures
            c == (CameraControl { position, azimuth, zenith, movements: Movements::idle() }),
            c.wf(),
            forall|t: u64| c.in_sync(t),
    {
        CameraControl {
            position,
            azimuth,
            zenith,
            movements: Movements {
                forward: Change::Idle,
                right: Change::Idle,
                up: Change::Idle,
            },
        }
    }

    /// Updates the position from the pending movement of all three axes and
    /// advances their sample markers to `now`.
    fn materialize_movements(&mut self, now: u64)
        requires
            old(self).wf(),
            old(self).in_sync(now),
            now <= TIME_LIMIT_MS,
        ensures
            *final(self) == old(self).materialized(now),
            final(self).wf(),
            final(self).in_sync(now),
    {
        let df = self.movements.forward.take(now);
        let dr = self.movements.right.take(now);
        let du = self.movements.up.take(now);
        proof {
            crate::movement::lemma_take_amount_bound(old(self).movements.forward, now);
            crate::movement::lemma_take_amount_bound(old(self).movements.right, now);
            crate::movement::lemma_take_amount_bound(old(self).movements.up, now);
        }
        let sa = sine_units(self.azimuth);
        let ca = cosine_units(self.azimuth);
        let sz = signed_sine_units(self.zenith);
        let cz = signed_cosine_units(self.zenith);
        let fx = axis_delta2(cz, sa, df);
        let rx = axis_delta1(ca, dr);
        let fy = axis_delta1(sz, df);
        let fz = axis_delta2(cz, ca, df);
        let rz = axis_delta1(sa, dr);
        self.position.x = clamp_coord_units(self.position.x + fx + rx);
        self.position.y = clamp_coord_units(self.position.y + fy + du);
        self.position.z = clamp_coord_units(self.position.z - fz + rz);
    }

    /// Materializes pending movement, then starts or stops movement along the
    /// view direction: forward is positive, backwards is negative.
    pub fn move_forw_backw(&mut self, now: u64, direction: MovementDirection)
        requires
            old(self).wf(),
            old(self).in_sync(now),
            now <= TIME_LIMIT_MS,
        ensures
            *final(self) == (CameraControl {
                movements: Movements {
                    forward: direction.change_at(now),
                    ..old(self).materialized(now).movements
                },
                ..old(self).materialized(now)
            }),
            final(self).wf(),
            final(self).in_sync(now),
    {
        self.materialize_movements(now);
        match direction {
            MovementDirection::Idle => self.movements.forward = Change::Idle,
            MovementDirection::Positive => self.movements.forward = Change::positive(now),
            MovementDirection::Negative => self.movements.forward = Change::negative(now),
        }
    }

    /// Materializes pending movement, then starts or stops movement along the
    /// right vector: right is positive, left is negative.
    pub fn move_sideways(&mut self, now: u64, direction: MovementDirection)
        requires
            old(self).wf(),
            old(self).in_sync(now),
            now <= TIME_LIMIT_MS,
        ensures
            *final(self) == (CameraControl {
                movements: Movements {
                    right: direction.change_at(now),
                    ..old(self).materialized(now).movements
                },
                ..old(self).materialized(now)
            }),
            final(self).wf(),
            final(self).in_sync(now),
    {
        self.materialize_movements(now);
        match direction {
            MovementDirection::Idle => self.movements.right = Change::Idle,
            MovementDirection::Positive => self.movements.right = Change::positive(now),
            MovementDirection::Negative => self.movements.right = Change::negative(now),
        }
    }

    /// Materializes pending movement, then starts or stops movement along
    /// world up: up is positive, down is negative.
    pub fn move_vertical(&mut self, now: u64, direction: MovementDirection)
        requires
            old(self).wf(),
            old(self).in_sync(now),
            now <= TIME_LIMIT_MS,
        ensures
            *final(self) == (CameraControl {
                movements: Movements {
                    up: direction.change_at(now),
                    ..old(self).materialized(now).movements
                },
                ..old(self).materialized(now)
            }),
            final(self).wf(),
            final(self).in_sync(now),
    {
        self.materialize_movements(now);
        match direction {
            MovementDirection::Idle => self.movements.up = Change::Idle,
            MovementDirection::Positive => self.movements.up = Change::positive(now),
            MovementDirection::Negative => self.movements.up = Change::negative(now),
        }
    }

    /// The state after an instantaneous rotation by the given pixel deltas:
    /// a positive horizontal delta turns the view around world up towards
    /// negative X, which lowers the azimuth in this parametrization, wrapping
    /// around the full turn; the zenith is clamped.
    pub open spec fn rotated(self, delta_x: int, delta_y: int) -> CameraControl {
        CameraControl {
            position: self.position,
            azimuth: ((self.azimuth - delta_x + 1_801_800) % 1800) as u64,
            zenith: (if self.zenith + delta_y > ZENITH_LIMIT_UNITS {
                ZENITH_LIMIT_UNITS as int
            } else if self.zenith + delta_y < -ZENITH_LIMIT_UNITS {
                -ZENITH_LIMIT_UNITS as int
            } else {
                self.zenith + delta_y
            }) as i64,
            movements: self.movements,
        }
    }

    /// Materializes pending movement, then turns the view: one pixel is a
    /// fifth of a degree. The zenith is clamped so the view can never flip
    /// over the poles.
    pub fn rotate(&mut self, now: u64, delta_x: i64, delta_y: i64)
        requires
            old(self).wf(),
            old(self).in_sync(now),
            now <= TIME_LIMIT_MS,
            -ROTATE_DELTA_LIMIT <= delta_x <= ROTATE_DELTA_LIMIT,
            -ROTATE_DELTA_LIMIT <= delta_y <= ROTATE_DELTA_LIMIT,
        ensures
            *final(self) == old(self).materialized(now).rotated(delta_x as int, delta_y as int),
            final(self).wf(),
            final(self).in_sync(now),
    {
        self.materialize_movements(now);
        let shifted = self.azimuth as i64 - delta_x + 1_801_800;
        self.azimuth = (shifted as u64) % 1800;
        let zen = self.zenith + delta_y;
        self.zenith = if zen > ZENITH_LIMIT_UNITS {
            ZENITH_LIMIT_UNITS
        } else if zen < -ZENITH_LIMIT_UNITS {
            -ZENITH_LIMIT_UNITS
        } else {
            zen
        };
    }

    /// Integrates all pending movement at `now` and returns the resulting
    /// view state.
    pub fn snapshot(&mut self, now: u64) -> (v: ViewState)
        requires
            old(self).wf(),
            old(self).in_sync(now),
            now <= TIME_LIMIT_MS,
        ensures
            *final(self) == old(self).materialized(now),
            v == old(self).materialized(now).view(),
            final(self).wf(),
            final(self).in_sync(now),
    {
        self.materialize_movements(now);
        ViewState {
            x: self.position.x,
            y: self.position.y,
            z: self.position.z,
            azimuth: self.azimuth,
            zenith: self.zenith,
        }
    }
}

/// Materialization keeps the camera well formed and in sync: coordinates are
/// clamped to the world bounds and every axis has just been sampled.
pub proof fn lemma_materialized_wf(s: CameraControl, now: u64)
    requires
        s.wf(),
        s.in_sync(now),
        now <= TIME_LIMIT_MS,
    ensures
        s.materialized(now).wf(),
        s.materialized(now).in_sync(now),
{
}

/// Reading the view twice at the same instant reports the same state:
/// materialization is idempotent, so a `snapshot` repeated with the same
/// `now` and no mutation in between returns the identical view.
pub proof fn lemma_snapshot_idempotent(s: CameraControl, now: u64)
    requires
        s.wf(),
        s.in_sync(now),
        now <= TIME_LIMIT_MS,
    ensures
        s.materialized(now).materialized(now) == s.materialized(now),
        s.materialized(now).materialized(now).view() == s.materialized(now).view(),
{
    let m = s.materialized(now);
    assert(m.movements.forward.take_amount(now) == 0);
    assert(m.movements.right.take_amount(now) == 0);
    assert(m.movements.up.take_amount(now) == 0);
}

/// Once an axis is stopped it contributes no further displacement: a stop
/// stores the idle state, and sampling an idle axis returns zero distance at
/// every later time.
pub proof fn lemma_stop_ends_displacement(now: u64, later: u64)
    ensures
        MovementDirection::Idle.change_at(now) == Change::Idle,
        MovementDirection::Idle.change_at(now).take_amount(later) == 0,
{
}

/// A camera whose axes are all idle does not move, at any time: its
/// materialization is the camera itself.
pub proof fn lemma_idle_movements_hold_position(s: CameraControl, now: u64)
    requires
        s.wf(),
        s.movements == Movements::idle(),
    ensures
        s.materialized(now) == s,
{
}

/// One instantaneous rotation, stamped with the time at which it
/// materializes pending movement first.
#[derive(Debug, Clone, Copy, PartialEq, Eq, Structural)]
pub struct RotateEvent {
    pub now: u64,
    pub delta_x: i64,
    pub delta_y: i64,
}

/// The camera state after a sequence of rotations, each materializing at its
/// own time and then turning the view.
pub open spec fn rotations_applied(s: CameraControl, evs: Seq<RotateEvent>) -> CameraControl
    decreases evs.len(),
{
    if evs.len() == 0 {
        s
    } else {
        rotations_applied(
            s.materialized(evs[0].now).rotated(evs[0].delta_x as int, evs[0].delta_y as int),
            evs.drop_first(),
        )
    }
}

/// Rotation times are within the clock bound, non-decreasing, and start no
/// earlier than the camera's previous sample.
pub open spec fn admissible_rotations(s: CameraControl, evs: Seq<RotateEvent>) -> bool {
    &&& forall|i: int| 0 <= i < evs.len() ==> (#[trigger] evs[i]).now <= TIME_LIMIT_MS
    &&& forall|i: int| 0 <= i < evs.len() - 1 ==> (#[trigger] evs[i]).now <= evs[i + 1].now
    &&& evs.len() > 0 ==> s.in_sync(evs[0].now)
}

/// After any sequence of rotations the view invariant still holds: the view
/// direction is the unit vector determined by the azimuth and the zenith, the
/// azimuth stays within the turn, and the zenith never leaves the clamp
/// bounds, so the view cannot flip over the poles.
pub proof fn lemma_rotations_keep_view_invariant(s: CameraControl, evs: Seq<RotateEvent>)
    requires
        s.wf(),
        admissible_rotations(s, evs),
    ensures
        rotations_applied(s, evs).wf(),
        -ZENITH_LIMIT_UNITS <= rotations_applied(s, evs).zenith <= ZENITH_LIMIT_UNITS,
        rotations_applied(s, evs).azimuth < TURN_UNITS,
    decreases evs.len(),
{
    if evs.len() > 0 {
        lemma_materialized_wf(s, evs[0].now);
        let s1 = s.materialized(evs[0].now).rotated(
            evs[0].delta_x as int,
            evs[0].delta_y as int,
        );
        assert(s1.wf());
        if evs.len() > 1 {
            assert(evs[0].now <= evs[1].now);
            assert(s1.in_sync(evs[1].now));
        }
        lemma_rotations_keep_view_invariant(s1, evs.drop_first());
    }
}

impl Default for CameraControl {
    /// A camera at the origin looking along negative Z, with no movement
    /// pending.
    fn default() -> (c: CameraControl)
        ensures
            c == (CameraControl {
                position: Position { x: 0, y: 0, z: 0 },
                azimuth: 0,
                zenith: 0,
                movements: Movements::idle(),
            }),
    {
        CameraControl {
            position: Position { x: 0, y: 0, z: 0 },
            azimuth: 0,
            zenith: 0,
            movements: Movements {
                forward: Change::Idle,
                right: Change::Idle,
                up: Change::Idle,
            },
        }
    }
}

} // verus!
