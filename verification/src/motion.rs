//! Time-scaled displacement: how far something moving at a given speed
//! travels during one frame.

use vstd::prelude::*;
use vstd::arithmetic::div_mod::{lemma_div_is_ordered, lemma_div_of0, lemma_div_pos_is_pos};
use vstd::arithmetic::mul::{
    lemma_mul_by_zero_is_zero,
    lemma_mul_nonnegative,
    lemma_mul_upper_bound,
};
use crate::{
    DELTA_LIMIT, FLAP_IMPULSE, GRAVITY_PER_FRAME, SPEED_LIMIT, STEP_LIMIT, TERMINAL_VELOCITY,
    UPWARD_SPEED_LIMIT,
};

verus! {

/// One frame of gravity on the player's vertical speed: pull downward,
/// unless the downward speed has already reached the terminal velocity.
pub open spec fn gravity_step(vy: int) -> int {
    if vy < TERMINAL_VELOCITY {
        vy + GRAVITY_PER_FRAME
    } else {
        vy
    }
}

/// One flap impulse on the player's vertical speed: push upward, unless
/// the upward speed has already reached the limit.
pub open spec fn flap_step(vy: int) -> int {
    if vy > UPWARD_SPEED_LIMIT {
        vy + FLAP_IMPULSE
    } else {
        vy
    }
}

/// Displacement, in world units, covered in `delta_millis` milliseconds at
/// `v` world units per second, rounded toward zero.
pub open spec fn scaled_displacement(delta_millis: int, v: int) -> int {
    if v >= 0 {
        (delta_millis * v) / 1000
    } else {
        -((delta_millis * -v) / 1000)
    }
}

/// A frame's displacement is bounded by `STEP_LIMIT` and carries the sign of
/// the speed.
pub proof fn lemma_scaled_displacement_bounds(delta_millis: int, v: int)
    requires
        0 <= delta_millis <= DELTA_LIMIT,
        -SPEED_LIMIT <= v <= SPEED_LIMIT,
    ensures
        -STEP_LIMIT <= scaled_displacement(delta_millis, v) <= STEP_LIMIT,
        v >= 0 ==> scaled_displacement(delta_millis, v) >= 0,
        v <= 0 ==> scaled_displacement(delta_millis, v) <= 0,
{
    let magnitude = if v >= 0 { v } else { -v };
    lemma_mul_nonnegative(delta_millis, magnitude);
    lemma_mul_upper_bound(delta_millis, DELTA_LIMIT as int, magnitude, SPEED_LIMIT as int);
    lemma_div_is_ordered(
        delta_millis * magnitude,
        DELTA_LIMIT as int * SPEED_LIMIT as int,
        1000,
    );
    lemma_div_pos_is_pos(delta_millis * magnitude, 1000);
    if v == 0 {
        lemma_div_of0(1000);
        lemma_mul_by_zero_is_zero(delta_millis);
    }
}

/// How far something moving at `v` world units per second travels in
/// `delta_millis` milliseconds, rounded toward zero.
pub fn displacement(delta_millis: u64, v: i64) -> (d: i64)
    requires
        delta_millis <= DELTA_LIMIT,
        -SPEED_LIMIT <= v <= SPEED_LIMIT,
    ensures
        d == scaled_displacement(delta_millis as int, v as int),
        -STEP_LIMIT <= d <= STEP_LIMIT,
        v >= 0 ==> d >= 0,
        v <= 0 ==> d <= 0,
{
    proof {
        lemma_scaled_displacement_bounds(delta_millis as int, v as int);
    }
    let magnitude: u64 = if v >= 0 { v as u64 } else { (-v) as u64 };
    let scaled: u64 = (delta_millis * magnitude) / 1000;
    if v >= 0 {
        scaled as i64
    } else {
        -(scaled as i64)
    }
}

} // verus!
