//! Angles and fixed-point trigonometry.
//!
//! The camera measures angles in mouse pixels: five pixels are one degree, so
//! a full turn is 1800 units and a quarter turn is 450. Sine and cosine are
//! evaluated in fixed point, scaled by 10000, with a rational approximation
//! (Bhaskara's) whose value is pinned exactly by the contracts; its bounds
//! are what the camera arithmetic relies on.

use vstd::prelude::*;

verus! {

/// Angle units in a full turn: one unit is a fifth of a degree.
pub const TURN_UNITS: u64 = 1800;

/// Fixed-point scale of the trigonometric values: this value stands for 1.
pub const TRIG_SCALE: i64 = 10_000;

/// The sine of an angle in the first half turn, scaled by `TRIG_SCALE`:
/// Bhaskara's rational approximation, evaluated in exact integer arithmetic.
pub open spec fn half_sine(u: int) -> int {
    (160_000 * (u * (900 - u))) / (4_050_000 - 4 * (u * (900 - u)))
}

/// The sine of any angle in `[0, TURN_UNITS)`, scaled by `TRIG_SCALE`.
pub open spec fn sine(u: int) -> int {
    if u <= 900 {
        half_sine(u)
    } else {
        -half_sine(u - 900)
    }
}

/// The cosine of any angle in `[0, TURN_UNITS)`, scaled by `TRIG_SCALE`.
pub open spec fn cosine(u: int) -> int {
    sine((u + 450) % 1800)
}

/// The product of an angle and its distance from the half turn never exceeds
/// the square of the quarter turn.
pub proof fn lemma_arch_product_bound(u: int)
    requires
        0 <= u <= 900,
    ensures
        0 <= u * (900 - u) <= 202_500,
{
    assert(0 <= u * (900 - u) <= 202_500) by (nonlinear_arith)
        requires 0 <= u <= 900;
}

/// The sine over the first half turn stays within `[0, TRIG_SCALE]`.
pub proof fn lemma_half_sine_bounds(u: int)
    requires
        0 <= u <= 900,
    ensures
        0 <= half_sine(u) <= TRIG_SCALE,
{
    lemma_arch_product_bound(u);
    let p = u * (900 - u);
    assert(0 <= (160_000 * p) / (4_050_000 - 4 * p) <= 10_000) by (nonlinear_arith)
        requires 0 <= p <= 202_500;
}

/// The sine of any angle stays within `[-TRIG_SCALE, TRIG_SCALE]`.
pub proof fn lemma_sine_bounds(u: int)
    requires
        0 <= u < TURN_UNITS,
    ensures
        -TRIG_SCALE <= sine(u) <= TRIG_SCALE,
{
    if u <= 900 {
        lemma_half_sine_bounds(u);
    } else {
        lemma_half_sine_bounds(u - 900);
    }
}

/// Evaluates the fixed-point sine of an angle.
pub fn sine_units(u: u64) -> (r: i64)
    requires
        u < TURN_UNITS,
    ensures
        r == sine(u as int),
        -TRIG_SCALE <= r <= TRIG_SCALE,
{
    proof {
        lemma_sine_bounds(u as int);
    }
    if u <= 900 {
        proof {
            lemma_arch_product_bound(u as int);
        }
        let p = u * (900 - u);
        let num = 160_000 * p;
        let den = 4_050_000 - 4 * p;
        (num / den) as i64
    } else {
        let v = u - 900;
        proof {
            lemma_arch_product_bound(v as int);
        }
        let p = v * (900 - v);
        let num = 160_000 * p;
        let den = 4_050_000 - 4 * p;
        -((num / den) as i64)
    }
}

/// Evaluates the fixed-point cosine of an angle.
pub fn cosine_units(u: u64) -> (r: i64)
    requires
        u < TURN_UNITS,
    ensures
        r == cosine(u as int),
        -TRIG_SCALE <= r <= TRIG_SCALE,
{
    sine_units((u + 450) % 1800)
}

} // verus!
