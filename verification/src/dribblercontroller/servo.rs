//! The servo style speed input: the length of the input pulse, counted by a PWM
//! slice at 125 MHz / 4, from 1 ms to 2 ms maps onto the full speed range.
use vstd::prelude::*;

verus! {

/// Counter frequency of the input capture in Hz (125 MHz / 4).
pub const PWM_FREQUENCY: u32 = 31_250_000;
/// Counts of a 1 ms pulse (lowest speed).
pub const LOW_COUNT: u16 = 31_250;
/// Counts of a 2 ms pulse (above the highest speed).
pub const HIGH_COUNT: u16 = 62_500;

/// Whether `b` lies outside the window of `tolerance` around `a` (`a - tolerance`
/// included, `a + tolerance` excluded): the speed changed enough to be taken.
pub open spec fn spec_within_range(a: u16, b: u16, tolerance: u16) -> bool {
    !(a - tolerance <= b && b < a + tolerance)
}

/// Whether `b` lies outside the window of `tolerance` around `a`.
pub fn within_range(a: u16, b: u16, tolerance: u16) -> (r: bool)
    ensures r == spec_within_range(a, b, tolerance),
{
    let a = a as i32;
    let b = b as i32;
    let tolerance = tolerance as i32;
    !(a - tolerance <= b && b < a + tolerance)
}

/// What a measured pulse does to the speed.
#[derive(Clone, Copy, Debug, PartialEq, Eq, Structural)]
pub enum ServoUpdate {
    /// The pulse is outside 1 ms..2 ms and is ignored.
    OutOfRange,
    /// The speed changes to this value.
    Change(u16),
    /// The speed stays.
    Keep,
}

/// The speed a pulse of `counter` counts stands for: the counts above 1 ms times
/// two, so that 1 ms..2 ms covers the `u16` range.
pub open spec fn spec_speed(counter: u16) -> u16 {
    ((counter - LOW_COUNT) * 2) as u16
}

/// What a pulse of `counter` counts does when the speed is `value`: a pulse within
/// 1 ms..2 ms sets the speed it stands for unless that is within 15 of the speed.
pub open spec fn spec_servo_update(value: u16, counter: u16) -> ServoUpdate {
    if !(LOW_COUNT <= counter && counter < HIGH_COUNT) {
        ServoUpdate::OutOfRange
    } else if spec_within_range(spec_speed(counter), value, 0xF) {
        ServoUpdate::Change(spec_speed(counter))
    } else {
        ServoUpdate::Keep
    }
}

/// Decides on a measured pulse.
pub fn servo_update(value: u16, counter: u16) -> (r: ServoUpdate)
    ensures r == spec_servo_update(value, counter),
{
    if !(LOW_COUNT <= counter && counter < HIGH_COUNT) {
        return ServoUpdate::OutOfRange;
    }
    let factor: u16 = u16::MAX / (HIGH_COUNT - LOW_COUNT);
    assert(factor == 2);
    let new_value = (counter - LOW_COUNT) * factor;
    if within_range(new_value, value, 0xF) {
        ServoUpdate::Change(new_value)
    } else {
        ServoUpdate::Keep
    }
}

/// The pulse length in microseconds of `counter` counts.
pub fn pulse_microseconds(counter: u16) -> (r: u32)
    ensures r == (counter as u32) * 1000 / 31250,
{
    (counter as u32) * 1_000 / (PWM_FREQUENCY / 1_000)
}

} // verus!
