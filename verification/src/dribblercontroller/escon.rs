//! The ESCON motor controller's speed input: a PWM duty cycle from 10 % (stop) to
//! 90 % (full speed).
use vstd::prelude::*;

verus! {

/// Compare value of 10 % duty.
pub const PWM_LOW: u16 = 6553;
/// Compare value of 90 % duty.
pub const PWM_HIGH: u16 = 58982;

/// The compare value for a speed: the speed scaled from the `u16` range onto
/// 10 %..90 %.
pub open spec fn spec_compare_value(speed: u16) -> u16 {
    ((speed as int) * ((PWM_HIGH - PWM_LOW) as int) / 65535 + PWM_LOW) as u16
}

/// The PWM compare value that drives the motor at `speed`.
pub fn compare_value(speed: u16) -> (r: u16)
    ensures
        r == spec_compare_value(speed),
        PWM_LOW <= r <= PWM_HIGH,
{
    let scaled: u32 = (speed as u32) * ((PWM_HIGH - PWM_LOW) as u32) / (u16::MAX as u32);
    proof {
        assert((speed as u32) * 52429u32 <= 65535u32 * 52429u32) by (nonlinear_arith);
        vstd::arithmetic::div_mod::lemma_div_is_ordered(((speed as u32) * 52429u32) as int, (65535u32 * 52429u32) as int, 65535);
        vstd::arithmetic::div_mod::lemma_div_by_multiple(52429, 65535);
        assert(65535 * 52429 == 52429 * 65535);
    }
    (scaled as u16) + PWM_LOW
}

/// The compare value that stops the motor (also used to clear an error).
pub fn stop_value() -> (r: u16)
    ensures r == PWM_LOW,
{
    PWM_LOW
}

} // verus!
