//! Dribbler motor drivers: a PWM driven motor controller, and DSHOT.
use vstd::prelude::*;

pub mod dshot;

verus! {

/// A dribbler motor that takes speed commands.
pub trait Dribbler<Speed> {
    /// Whether the dribbler can take `speed` (a PWM output without a duty range
    /// cannot take any).
    spec fn accepts(&self, speed: Speed) -> bool;

    fn send(&mut self, speed: Speed)
        requires
            old(self).accepts(speed),
    ;
}

/// A count of calls increased by one, staying at `u64::MAX` once there.
pub open spec fn sat_inc(n: u64) -> u64 {
    if n < u64::MAX { (n + 1) as u64 } else { n }
}

/// A PWM output, as a hardware abstraction layer provides it, with duty cycles of
/// type `Duty`. Its state is whether it is enabled, the duty cycle set last, its full
/// duty, and how many times each of its two commands has been called;
/// implementations are believed, not checked, to keep the contracts below.
pub trait PwmPin {
    type Duty;

    /// Whether the output is enabled.
    spec fn enabled(&self) -> bool;

    /// The duty cycle set last.
    spec fn duty(&self) -> Self::Duty;

    /// The full duty of the output.
    spec fn max_duty(&self) -> Self::Duty;

    /// How many times `enable` has been called.
    spec fn enable_calls(&self) -> u64;

    /// How many times `set_duty` has been called.
    spec fn set_duty_calls(&self) -> u64;

    /// Enables the output; the duty cycle stays.
    fn enable(&mut self)
        ensures
            final(self).enabled(),
            final(self).duty() == old(self).duty(),
            final(self).max_duty() == old(self).max_duty(),
            final(self).enable_calls() == sat_inc(old(self).enable_calls()),
            final(self).set_duty_calls() == old(self).set_duty_calls(),
    ;

    /// The full duty of the output.
    fn get_max_duty(&self) -> (r: Self::Duty)
        ensures
            r == self.max_duty(),
    ;

    /// Sets the duty cycle.
    fn set_duty(&mut self, duty: Self::Duty)
        ensures
            final(self).duty() == duty,
            final(self).enabled() == old(self).enabled(),
            final(self).max_duty() == old(self).max_duty(),
            final(self).enable_calls() == old(self).enable_calls(),
            final(self).set_duty_calls() == sat_inc(old(self).set_duty_calls()),
    ;
}

/// The duty cycle that a PWM motor controller gets for `speed` on an output whose
/// duty cycles go up to `full` and whose full duty is `max_duty`: half the output at
/// speed zero, plus the speed scaled down by `full / max_duty` and halved.
pub open spec fn spec_pwm_duty(speed: int, full: int, max_duty: int) -> int {
    speed / (full / max_duty) / 2 + max_duty / 2
}

/// The duty cycle for a 16 bit `speed` on an output whose full duty is `max_duty`.
pub open spec fn spec_duty_for_speed(speed: u16, max_duty: u16) -> int {
    spec_pwm_duty(speed as int, 0xFFFF, max_duty as int)
}

/// The duty cycle for `speed` on an output whose full duty is `max_duty`.
pub fn duty_for_speed(speed: u16, max_duty: u16) -> (r: u16)
    requires
        max_duty > 0,
    ensures
        r == spec_duty_for_speed(speed, max_duty),
{
    let scale: u16 = u16::MAX / max_duty;
    assert(scale >= 1) by (nonlinear_arith)
        requires max_duty > 0, max_duty <= 0xFFFF, scale == 0xFFFFu16 / max_duty;
    assert(speed / scale <= 0xFFFF) by (nonlinear_arith)
        requires scale >= 1, speed <= 0xFFFF;
    speed / scale / 2 + max_duty / 2
}

/// Any PWM output with a duty range drives a dribbler directly: the speed sets the
/// duty cycle around half the output (see `spec_pwm_duty`), with one `set_duty`.
impl<P: PwmPin<Duty = u16>> Dribbler<u16> for P {
    open spec fn accepts(&self, speed: u16) -> bool {
        self.max_duty() > 0
    }

    fn send(&mut self, speed: u16)
        ensures
            final(self).duty() == spec_duty_for_speed(speed, old(self).max_duty()),
            final(self).enabled() == old(self).enabled(),
            final(self).max_duty() == old(self).max_duty(),
            final(self).enable_calls() == old(self).enable_calls(),
            final(self).set_duty_calls() == sat_inc(old(self).set_duty_calls()),
    {
        let max_duty = self.get_max_duty();
        let duty = duty_for_speed(speed, max_duty);
        self.set_duty(duty);
    }
}

impl<P: PwmPin<Duty = u8>> Dribbler<u8> for P {
    open spec fn accepts(&self, speed: u8) -> bool {
        self.max_duty() > 0
    }

    fn send(&mut self, speed: u8)
        ensures
            final(self).duty() == spec_pwm_duty(speed as int, 0xFF, old(self).max_duty() as int),
            final(self).enabled() == old(self).enabled(),
            final(self).max_duty() == old(self).max_duty(),
            final(self).enable_calls() == old(self).enable_calls(),
            final(self).set_duty_calls() == sat_inc(old(self).set_duty_calls()),
    {
        let max_duty = self.get_max_duty();
        let scale: u8 = u8::MAX / max_duty;
        assert(scale >= 1) by (nonlinear_arith)
            requires max_duty > 0, max_duty <= 0xFF, scale == 0xFFu8 / max_duty;
        assert(speed / scale <= 0xFF) by (nonlinear_arith)
            requires scale >= 1, speed <= 0xFF;
        self.set_duty(speed / scale / 2 + max_duty / 2);
    }
}

impl<P: PwmPin<Duty = u32>> Dribbler<u32> for P {
    open spec fn accepts(&self, speed: u32) -> bool {
        self.max_duty() > 0
    }

    fn send(&mut self, speed: u32)
        ensures
            final(self).duty() == spec_pwm_duty(speed as int, 0xFFFF_FFFF, old(self).max_duty() as int),
            final(self).enabled() == old(self).enabled(),
            final(self).max_duty() == old(self).max_duty(),
            final(self).enable_calls() == old(self).enable_calls(),
            final(self).set_duty_calls() == sat_inc(old(self).set_duty_calls()),
    {
        let max_duty = self.get_max_duty();
        let scale: u32 = u32::MAX / max_duty;
        assert(scale >= 1) by (nonlinear_arith)
            requires max_duty > 0, max_duty <= 0xFFFF_FFFF, scale == 0xFFFF_FFFFu32 / max_duty;
        assert(speed / scale <= 0xFFFF_FFFF) by (nonlinear_arith)
            requires scale >= 1, speed <= 0xFFFF_FFFF;
        self.set_duty(speed / scale / 2 + max_duty / 2);
    }
}

impl<P: PwmPin<Duty = u64>> Dribbler<u64> for P {
    open spec fn accepts(&self, speed: u64) -> bool {
        self.max_duty() > 0
    }

    fn send(&mut self, speed: u64)
        ensures
            final(self).duty() == spec_pwm_duty(speed as int, 0xFFFF_FFFF_FFFF_FFFF, old(self).max_duty() as int),
            final(self).enabled() == old(self).enabled(),
            final(self).max_duty() == old(self).max_duty(),
            final(self).enable_calls() == old(self).enable_calls(),
            final(self).set_duty_calls() == sat_inc(old(self).set_duty_calls()),
    {
        let max_duty = self.get_max_duty();
        let scale: u64 = u64::MAX / max_duty;
        assert(scale >= 1) by (nonlinear_arith)
            requires max_duty > 0, max_duty <= 0xFFFF_FFFF_FFFF_FFFF, scale == 0xFFFF_FFFF_FFFF_FFFFu64 / max_duty;
        assert(speed / scale <= 0xFFFF_FFFF_FFFF_FFFF) by (nonlinear_arith)
            requires scale >= 1, speed <= 0xFFFF_FFFF_FFFF_FFFF;
        self.set_duty(speed / scale / 2 + max_duty / 2);
    }
}

/// A dribbler whose motor controller takes its speed as a PWM duty cycle (the
/// output runs at 500 Hz).
pub struct PwmDribbler<P> {
    pin: P,
}

impl<P: PwmPin<Duty = u16>> PwmDribbler<P> {
    /// A dribbler on `pin` (which must run at 500 Hz); the pin is enabled, with one
    /// `enable` and no other command.
    pub fn new(pin: P) -> (r: Self)
        ensures
            r.output().enabled(),
            r.output().duty() == pin.duty(),
            r.output().max_duty() == pin.max_duty(),
            r.output().enable_calls() == sat_inc(pin.enable_calls()),
            r.output().set_duty_calls() == pin.set_duty_calls(),
    {
        let mut pin = pin;
        pin.enable();
        Self { pin }
    }

    /// Sets the duty cycle to `speed`, with one `set_duty` and no other command.
    pub fn set_speed(&mut self, speed: u16)
        ensures
            final(self).output().duty() == speed,
            final(self).output().enabled() == old(self).output().enabled(),
            final(self).output().max_duty() == old(self).output().max_duty(),
            final(self).output().enable_calls() == old(self).output().enable_calls(),
            final(self).output().set_duty_calls() == sat_inc(old(self).output().set_duty_calls()),
    {
        self.pin.set_duty(speed);
    }

    /// The output the dribbler drives.
    pub closed spec fn output(&self) -> P {
        self.pin
    }

    /// The output.
    pub fn pin(&self) -> (r: &P)
        ensures
            *r == self.output(),
    {
        &self.pin
    }
}

impl<P: PwmPin<Duty = u16>> Dribbler<u16> for PwmDribbler<P> {
    open spec fn accepts(&self, speed: u16) -> bool {
        true
    }

    fn send(&mut self, speed: u16)
        ensures
            final(self).output().duty() == speed,
            final(self).output().enabled() == old(self).output().enabled(),
            final(self).output().max_duty() == old(self).output().max_duty(),
            final(self).output().enable_calls() == old(self).output().enable_calls(),
            final(self).output().set_duty_calls() == sat_inc(old(self).output().set_duty_calls()),
    {
        self.set_speed(speed);
    }
}

} // verus!
