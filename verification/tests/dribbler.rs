use luhbots::dribbler::{duty_for_speed, Dribbler, PwmDribbler, PwmPin};

// A PWM output with duty cycles of type `D` that counts the commands it gets.
struct MockPwm<D> {
    enabled: bool,
    max: D,
    duty: D,
    enables: u64,
    set_duties: u64,
}

fn mock<D>(max: D, duty: D) -> MockPwm<D> {
    MockPwm { enabled: false, max, duty, enables: 0, set_duties: 0 }
}

impl<D: Copy> PwmPin for MockPwm<D> {
    type Duty = D;
    fn enabled(&self) -> bool {
        self.enabled
    }
    fn duty(&self) -> D {
        self.duty
    }
    fn max_duty(&self) -> D {
        self.max
    }
    fn enable_calls(&self) -> u64 {
        self.enables
    }
    fn set_duty_calls(&self) -> u64 {
        self.set_duties
    }
    fn enable(&mut self) {
        self.enabled = true;
        self.enables = self.enables.saturating_add(1);
    }
    fn get_max_duty(&self) -> D {
        self.max
    }
    fn set_duty(&mut self, duty: D) {
        self.duty = duty;
        self.set_duties = self.set_duties.saturating_add(1);
    }
}

#[test]
fn duty_is_half_the_output_at_speed_zero() {
    assert_eq!(duty_for_speed(0, 1000), 500);
    assert_eq!(duty_for_speed(0, u16::MAX), 32767);
}

#[test]
fn duty_rises_with_the_scaled_speed() {
    // u16::MAX / 1000 = 65; 65535 / 65 = 1008; / 2 = 504; + 500.
    assert_eq!(duty_for_speed(u16::MAX, 1000), 1004);
    // Full-range output: scale 1.
    assert_eq!(duty_for_speed(1000, u16::MAX), 500 + 32767);
}

#[test]
fn a_pwm_output_is_a_dribbler() {
    let mut pin = mock(1000u16, 0);
    pin.send(6500u16);
    // 6500 / 65 / 2 + 500
    assert_eq!(pin.duty, 550);
    assert_eq!((pin.enables, pin.set_duties), (0, 1));
}

#[test]
fn pwm_outputs_of_every_width_are_dribblers() {
    let mut p8 = mock(100u8, 0);
    p8.send(200u8);
    // 255 / 100 = 2; 200 / 2 / 2 + 50
    assert_eq!(p8.duty, 100);
    let mut p32 = mock(1000u32, 0);
    p32.send(0u32);
    assert_eq!(p32.duty, 500);
    let mut p64 = mock(u64::MAX, 0);
    p64.send(10u64);
    // scale 1: 10 / 2 + u64::MAX / 2
    assert_eq!(p64.duty, 5 + u64::MAX / 2);
    assert_eq!((p8.set_duties, p32.set_duties, p64.set_duties), (1, 1, 1));
}

#[test]
fn pwm_dribbler_enables_its_pin_and_sets_the_speed_as_duty() {
    let pin = mock(1000u16, 0);
    let mut dribbler = PwmDribbler::new(pin);
    assert!(dribbler.pin().enabled);
    assert_eq!((dribbler.pin().enables, dribbler.pin().set_duties), (1, 0));
    dribbler.send(321);
    assert_eq!(dribbler.pin().duty, 321);
    dribbler.set_speed(12);
    assert_eq!(dribbler.pin().duty, 12);
    assert_eq!((dribbler.pin().enables, dribbler.pin().set_duties), (1, 2));
}
