//! A single axis of time-integrated movement.
//!
//! Movement on an axis is not sampled per frame: when a key goes down the
//! start time is recorded, and whenever the camera materializes movement it
//! asks the axis how far it travelled since the previous sample. The
//! time-to-distance curve is the fifth power of the held time, so movement
//! starts slowly and accelerates sharply the longer the key is held.

use vstd::prelude::*;

verus! {

/// Timestamps are milliseconds on a monotonic clock. They must stay below
/// this bound so that the fifth power of a duration fits in 128 bits.
pub const TIME_LIMIT_MS: u64 = 50_000_000;

/// The divisor that turns the fifth power of a millisecond count into
/// distance units: one unit is a thousandth of the distance reached after
/// holding a key for one second.
pub const CURVE_DIVISOR: u128 = 1_000_000_000_000;

/// The time-to-distance curve: the fifth power of the held time, scaled to
/// distance units. Repeated sampling telescopes exactly because every sample
/// is a difference of this one function at absolute offsets.
pub open spec fn curve(t: nat) -> nat {
    (t * t * t * t * t) / (CURVE_DIVISOR as nat)
}

/// Every curve value of an admissible held time fits comfortably in `i128`.
proof fn lemma_curve_fits(t: nat)
    requires
        t <= TIME_LIMIT_MS,
    ensures
        curve(t) <= 312_500_000_000_000_000_000_000_000,
{
    lemma_curve_le(t, TIME_LIMIT_MS as nat);
    assert(curve(TIME_LIMIT_MS as nat) == 312_500_000_000_000_000_000_000_000);
}

/// Evaluates the movement curve at a held time of `t` milliseconds.
pub fn curve_units(t: u64) -> (r: u128)
    requires
        t <= TIME_LIMIT_MS,
    ensures
        r == curve(t as nat),
{
    let ghost tn = t as nat;
    proof {
        assert(tn * tn <= 2_500_000_000_000_000) by (nonlinear_arith)
            requires tn <= 50_000_000;
        assert((tn * tn) * (tn * tn) <= 6_250_000_000_000_000_000_000_000_000_000)
            by (nonlinear_arith)
            requires tn * tn <= 2_500_000_000_000_000;
        assert(((tn * tn) * (tn * tn)) * tn
            <= 312_500_000_000_000_000_000_000_000_000_000_000_000) by (nonlinear_arith)
            requires
                (tn * tn) * (tn * tn) <= 6_250_000_000_000_000_000_000_000_000_000,
                tn <= 50_000_000;
    }
    let t128 = t as u128;
    let t2 = t128 * t128;
    let t4 = t2 * t2;
    let t5 = t4 * t128;
    proof {
        assert(t5 == tn * tn * tn * tn * tn) by (nonlinear_arith)
            requires t5 == ((tn * tn) * (tn * tn)) * tn;
    }
    t5 / CURVE_DIVISOR
}

/// One axis of movement: idle, or accumulating in one of the two directions
/// since `init`, with `last` marking the previous sample.
#[derive(Debug, Clone, Copy, PartialEq, Eq, Structural)]
pub enum Change {
    Idle,
    Positive { init: u64, last: u64 },
    Negative { init: u64, last: u64 },
}

impl Change {
    /// Timestamps are ordered and below the clock bound.
    pub open spec fn wf(self) -> bool {
        match self {
            Change::Idle => true,
            Change::Positive { init, last } => init <= last <= TIME_LIMIT_MS,
            Change::Negative { init, last } => init <= last <= TIME_LIMIT_MS,
        }
    }

    /// The previous sample does not lie in the future of `now`.
    pub open spec fn in_sync(self, now: u64) -> bool {
        match self {
            Change::Idle => true,
            Change::Positive { init, last } => last <= now,
            Change::Negative { init, last } => last <= now,
        }
    }

    /// The signed distance a sample at `now` returns.
    pub open spec fn take_amount(self, now: u64) -> int {
        match self {
            Change::Idle => 0,
            Change::Positive { init, last } =>
                curve((now - init) as nat) - curve((last - init) as nat),
            Change::Negative { init, last } =>
                curve((last - init) as nat) - curve((now - init) as nat),
        }
    }

    /// The state after a sample at `now`: the previous-sample marker moves to
    /// `now`, the phase is kept.
    pub open spec fn after_take(self, now: u64) -> Change {
        match self {
            Change::Idle => Change::Idle,
            Change::Positive { init, last } => Change::Positive { init, last: now },
            Change::Negative { init, last } => Change::Negative { init, last: now },
        }
    }

    /// Begins accumulating in the positive direction at `now`.
    pub fn positive(now: u64) -> (c: Change)
        ensures
            c == (Change::Positive { init: now, last: now }),
    {
        Change::Positive { init: now, last: now }
    }

    /// Begins accumulating in the negative direction at `now`.
    pub fn negative(now: u64) -> (c: Change)
        ensures
            c == (Change::Negative { init: now, last: now }),
    {
        Change::Negative { init: now, last: now }
    }

    /// Returns the signed distance travelled since the previous sample and
    /// moves the sample marker to `now`. An idle axis returns 0 for any `now`
    /// and stays idle.
    pub fn take(&mut self, now: u64) -> (d: i128)
        requires
            old(self).wf(),
            old(self).in_sync(now),
            now <= TIME_LIMIT_MS,
        ensures
            d == old(self).take_amount(now),
            *final(self) == old(self).after_take(now),
            final(self).wf(),
            final(self).in_sync(now),
            *old(self) is Idle ==> d == 0,
    {
        match *self {
            Change::Idle => 0,
            Change::Positive { init, last } => {
                let total = curve_units(now - init);
                let prev = curve_units(last - init);
                proof {
                    lemma_curve_le(((last - init) as nat), ((now - init) as nat));
                    lemma_curve_fits((now - init) as nat);
                }
                *self = Change::Positive { init, last: now };
                (total - prev) as i128
            }
            Change::Negative { init, last } => {
                let total = curve_units(now - init);
                let prev = curve_units(last - init);
                proof {
                    lemma_curve_le(((last - init) as nat), ((now - init) as nat));
                    lemma_curve_fits((now - init) as nat);
                }
                *self = Change::Negative { init, last: now };
                (prev as i128) - (total as i128)
            }
        }
    }
}

/// The largest distance a single sample can return, in curve units: the
/// curve taken at the clock bound.
pub const SAMPLE_LIMIT_UNITS: i128 = 312_500_000_000_000_000_000_000_000;

/// One sample never moves further than the curve taken at the clock bound.
pub proof fn lemma_take_amount_bound(c: Change, now: u64)
    requires
        c.wf(),
        c.in_sync(now),
        now <= TIME_LIMIT_MS,
    ensures
        -SAMPLE_LIMIT_UNITS <= c.take_amount(now) <= SAMPLE_LIMIT_UNITS,
{
    match c {
        Change::Idle => {}
        Change::Positive { init, last } => {
            lemma_curve_le((last - init) as nat, (now - init) as nat);
            lemma_curve_fits((now - init) as nat);
        }
        Change::Negative { init, last } => {
            lemma_curve_le((last - init) as nat, (now - init) as nat);
            lemma_curve_fits((now - init) as nat);
        }
    }
}

/// The summed distance over a run of samples at the given times, threading
/// the axis state through each sample.
pub open spec fn total_taken(c: Change, times: Seq<u64>) -> int
    decreases times.len(),
{
    if times.len() == 0 {
        0
    } else {
        c.take_amount(times[0]) + total_taken(c.after_take(times[0]), times.drop_first())
    }
}

/// Sample times are admissible for the axis: all below the clock bound,
/// non-decreasing, and none earlier than the previous sample of the axis.
pub open spec fn admissible_times(c: Change, times: Seq<u64>) -> bool {
    &&& forall|i: int| 0 <= i < times.len() ==> times[i] <= TIME_LIMIT_MS
    &&& forall|i: int| 0 <= i < times.len() - 1 ==> #[trigger] times[i] <= times[i + 1]
    &&& times.len() > 0 ==> c.in_sync(times[0])
}

/// Partition invariance: however many intermediate samples a run of an
/// accumulating axis is cut into, the increments sum to the curve taken at
/// the whole held time, signed by the direction; an idle axis contributes
/// nothing at all.
pub proof fn lemma_take_partition(c: Change, times: Seq<u64>)
    requires
        c.wf(),
        admissible_times(c, times),
        times.len() > 0,
    ensures
        match c {
            Change::Idle => total_taken(c, times) == 0,
            Change::Positive { init, last } => total_taken(c, times)
                == curve((times.last() - init) as nat) - curve((last - init) as nat),
            Change::Negative { init, last } => total_taken(c, times)
                == curve((last - init) as nat) - curve((times.last() - init) as nat),
        },
    decreases times.len(),
{
    let rest = times.drop_first();
    if times.len() == 1 {
        assert(total_taken(c.after_take(times[0]), rest) == 0);
    } else {
        assert(times[0] <= times[1]);
        lemma_take_partition(c.after_take(times[0]), rest);
        assert(rest.last() == times.last());
    }
}

/// The sum of all samples between starting an axis at `start` and the last
/// sample of the run is exactly the curve of the whole span: no distance is
/// lost or duplicated by intermediate sampling.
pub proof fn lemma_run_total(start: u64, times: Seq<u64>)
    requires
        start <= TIME_LIMIT_MS,
        times.len() > 0,
        start <= times[0],
        admissible_times(Change::Positive { init: start, last: start }, times),
    ensures
        total_taken(Change::Positive { init: start, last: start }, times)
            == curve((times.last() - start) as nat),
{
    lemma_take_partition(Change::Positive { init: start, last: start }, times);
    assert(curve((start - start) as nat) == 0) by {
        assert((0nat * 0 * 0 * 0 * 0) / (CURVE_DIVISOR as nat) == 0);
    }
}

/// The curve never decreases as the held time grows.
proof fn lemma_curve_le(a: nat, b: nat)
    requires
        a <= b,
    ensures
        curve(a) <= curve(b),
{
    assert(a * a * a * a * a <= b * b * b * b * b) by (nonlinear_arith)
        requires a <= b;
    assert((a * a * a * a * a) / (CURVE_DIVISOR as nat)
        <= (b * b * b * b * b) / (CURVE_DIVISOR as nat)) by (nonlinear_arith)
        requires a * a * a * a * a <= b * b * b * b * b;
}

} // verus!
