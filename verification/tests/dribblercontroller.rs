use luhbots::dribblercontroller::escon::{compare_value, stop_value, PWM_HIGH, PWM_LOW};
use luhbots::dribblercontroller::servo::{pulse_microseconds, servo_update, within_range, ServoUpdate};

#[test]
fn escon_duty_cycle() {
    assert_eq!(compare_value(0), PWM_LOW);
    assert_eq!(compare_value(u16::MAX), PWM_HIGH);
    assert_eq!(compare_value(32768), 32767);
    assert_eq!(stop_value(), 6553);
}

#[test]
fn servo_window() {
    // Inside the window [a - t, a + t): no change.
    assert!(!within_range(100, 85, 15));
    assert!(!within_range(100, 114, 15));
    // Outside: a change.
    assert!(within_range(100, 115, 15));
    assert!(within_range(100, 84, 15));
}

#[test]
fn servo_pulses() {
    assert_eq!(servo_update(0, 31_249), ServoUpdate::OutOfRange);
    assert_eq!(servo_update(0, 62_500), ServoUpdate::OutOfRange);
    assert_eq!(servo_update(0, 31_250), ServoUpdate::Keep);
    assert_eq!(servo_update(0, 40_000), ServoUpdate::Change(17_500));
    assert_eq!(servo_update(17_510, 40_000), ServoUpdate::Keep);
    assert_eq!(servo_update(17_515, 40_000), ServoUpdate::Change(17_500));
    assert_eq!(servo_update(100, 62_499), ServoUpdate::Change(62_498));
    assert_eq!(pulse_microseconds(31_250), 1_000);
    assert_eq!(pulse_microseconds(62_500), 2_000);
}
