//! Axis scaling: from an averaged reading to the 8-bit value of one axis.
//!
//! Each pedal has a threshold below which it counts as released and a divisor
//! that turns the excess above the threshold into axis steps. The divisors are
//! the decimal fractions 10.9 and 10.39; they are held as exact ratios, so
//! that every quotient is floored exactly.

use vstd::prelude::*;

verus! {

/// Largest value an axis can take.
pub const AXIS_MAX: u8 = 255;

/// Readings up to this one leave the brake axis at zero.
pub const BRAKE_THRESHOLD: u16 = 750;

/// The brake divisor 10.9, in tenths.
pub const BRAKE_DIVISOR_TENTHS: u32 = 109;

/// Readings up to this one leave the accelerator axis at full scale.
pub const ACCEL_THRESHOLD: u16 = 650;

/// The accelerator divisor 10.39, in hundredths.
pub const ACCEL_DIVISOR_HUNDREDTHS: u32 = 1039;

/// `n` limited to the range of an axis.
pub open spec fn clamp_axis(n: int) -> int {
    if n < 0 {
        0
    } else if n > AXIS_MAX as int {
        AXIS_MAX as int
    } else {
        n
    }
}

/// Whole brake steps in a reading: zero up to the threshold, above it the
/// excess divided by 10.9, floored.
pub open spec fn brake_steps(reading: int) -> int {
    if reading <= BRAKE_THRESHOLD as int {
        0
    } else {
        (reading - BRAKE_THRESHOLD as int) * 10 / (BRAKE_DIVISOR_TENTHS as int)
    }
}

/// Whole accelerator steps in a reading: zero up to the threshold, above it
/// the excess divided by 10.39, floored.
pub open spec fn accel_steps(reading: int) -> int {
    if reading <= ACCEL_THRESHOLD as int {
        0
    } else {
        (reading - ACCEL_THRESHOLD as int) * 100 / (ACCEL_DIVISOR_HUNDREDTHS as int)
    }
}

/// The brake axis of a reading: its steps, clamped.
pub open spec fn brake_axis(reading: int) -> int {
    clamp_axis(brake_steps(reading))
}

/// The accelerator axis of a reading: full scale less its steps, clamped.
/// The polarity is the reverse of the brake's: a released pedal reads 255.
pub open spec fn accel_axis(reading: int) -> int {
    clamp_axis(AXIS_MAX as int - accel_steps(reading))
}

/// Scales an averaged brake reading to its axis value.
pub fn scale_down_brake(v: u16) -> (axis: u8)
    ensures
        axis as int == brake_axis(v as int),
        v <= BRAKE_THRESHOLD ==> axis == 0,
{
    if v <= BRAKE_THRESHOLD {
        0
    } else {
        let excess: u32 = (v - BRAKE_THRESHOLD) as u32;
        let steps: u32 = excess * 10 / BRAKE_DIVISOR_TENTHS;
        if steps > AXIS_MAX as u32 {
            AXIS_MAX
        } else {
            steps as u8
        }
    }
}

/// Scales an averaged accelerator reading to its axis value.
pub fn scale_down_accel(v: u16) -> (axis: u8)
    ensures
        axis as int == accel_axis(v as int),
        v <= ACCEL_THRESHOLD ==> axis == AXIS_MAX,
{
    let s: u8 = if v <= ACCEL_THRESHOLD {
        0
    } else {
        let excess: u32 = (v - ACCEL_THRESHOLD) as u32;
        let steps: u32 = excess * 100 / ACCEL_DIVISOR_HUNDREDTHS;
        if steps > AXIS_MAX as u32 {
            AXIS_MAX
        } else {
            steps as u8
        }
    };
    AXIS_MAX - s
}

/// Above the threshold the brake steps are the floor of the excess over 10.9:
/// `steps * 10.9 <= excess < (steps + 1) * 10.9`, written in tenths.
pub proof fn lemma_brake_steps_floor(reading: int)
    requires
        reading > BRAKE_THRESHOLD,
    ensures
        brake_steps(reading) * 109 <= (reading - 750) * 10 < (brake_steps(reading) + 1) * 109,
{
}

/// Above the threshold the accelerator steps are the floor of the excess over
/// 10.39: `steps * 10.39 <= excess < (steps + 1) * 10.39`, written in
/// hundredths.
pub proof fn lemma_accel_steps_floor(reading: int)
    requires
        reading > ACCEL_THRESHOLD,
    ensures
        accel_steps(reading) * 1039 <= (reading - 650) * 100 < (accel_steps(reading) + 1) * 1039,
{
}

/// Both axes stay within `0..=255`, whatever the reading.
pub proof fn lemma_axis_in_range(reading: int)
    ensures
        0 <= brake_axis(reading) <= 255,
        0 <= accel_axis(reading) <= 255,
{
}

/// A released pedal: up to its threshold the brake reads 0 and the
/// accelerator reads 255.
pub proof fn lemma_released(reading: int)
    ensures
        reading <= 750 ==> brake_axis(reading) == 0,
        reading <= 650 ==> accel_axis(reading) == 255,
{
}

/// Pressing further never moves an axis back: the brake axis does not fall
/// and the accelerator axis does not rise as the reading grows.
pub proof fn lemma_axis_monotonic(lower: int, higher: int)
    requires
        lower <= higher,
    ensures
        brake_axis(lower) <= brake_axis(higher),
        accel_axis(lower) >= accel_axis(higher),
{
}

/// Where the axes saturate: the brake reads 255 exactly from 3530 on, the
/// accelerator reads 0 exactly from 3300 on. Both lie inside the 12-bit range
/// of a conversion, so the clamp is reached by real readings.
pub proof fn lemma_saturation(reading: int)
    ensures
        brake_axis(reading) == 255 <==> reading >= 3530,
        accel_axis(reading) == 0 <==> reading >= 3300,
{
}

} // verus!
