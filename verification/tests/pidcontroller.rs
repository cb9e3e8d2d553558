use luhbots::pid::{Controller, PIDController, ParallelController, SeriesController};

#[test]
fn p_gain() {
    let mut controller = PIDController::new().with_p_gain(1).with_setpoint(1);
    assert_eq!(controller.regulate(&0), 1);
    assert_eq!(controller.regulate(&0), 1);
    let mut controller = PIDController::new().with_p_gain(2).with_setpoint(1);
    assert_eq!(controller.regulate(&0), 2);
}

#[test]
fn i_gain() {
    let mut controller = PIDController::new().with_i_gain(1).with_setpoint(1);
    assert_eq!(controller.regulate(&0), 1);
    assert_eq!(controller.regulate(&0), 2);
    controller.clear_integral();
    assert_eq!(controller.regulate(&0), 1);
    let mut controller = PIDController::new().with_i_gain(2).with_setpoint(1);
    assert_eq!(controller.regulate(&0), 2);
}

#[test]
fn d_gain() {
    let mut controller = PIDController::new().with_d_gain(1);
    assert_eq!(controller.regulate(&0), 0);
    assert_eq!(controller.regulate(&1), 1);
    assert_eq!(controller.regulate(&2), 1);
    assert_eq!(controller.regulate(&2), 0);
}

#[test]
fn set_target() {
    let mut controller = PIDController::new().with_p_gain(1);
    controller.set_target(&1);
    assert_eq!(controller.setpoint(), 1);
}

#[test]
fn i_sum_limit() {
    let mut controller = PIDController::new()
        .with_i_gain(1)
        .with_i_sum_limit(5)
        .with_setpoint(2);
    assert_eq!(controller.regulate(&0), 2);
    assert_eq!(controller.regulate(&0), 4);
    assert_eq!(controller.regulate(&0), 5);
    assert_eq!(controller.regulate(&0), 5);
    assert_eq!(controller.regulate(&7), 0);
    assert_eq!(controller.regulate(&5), -3);
    assert_eq!(controller.regulate(&5), -5);
}

#[test]
fn limit() {
    let mut controller = PIDController::new()
        .with_p_gain(1)
        .with_limit(5)
        .with_setpoint(0);
    assert_eq!(controller.regulate(&-4), 4);
    assert_eq!(controller.regulate(&-6), 5);
    assert_eq!(controller.regulate(&4), -4);
    assert_eq!(controller.regulate(&6), -5);
}

#[test]
fn parallel() {
    let mut controller = ParallelController(
        PIDController::new().with_p_gain(1),
        PIDController::new().with_p_gain(2),
    );
    assert_eq!(controller.regulate(&(1, 1)), (-1, -2));
    let mut controller = ParallelController(
        PIDController::new().with_p_gain(1),
        PIDController::new().with_p_gain(2),
    );
    assert_eq!(controller.regulate(&(1, 1)), (-1, -2));
    controller.set_target(&(3, 4));
    assert_eq!(controller.0.setpoint(), 3);
    assert_eq!(controller.1.setpoint(), 4);
}

#[test]
fn series() {
    let mut controller = SeriesController(
        PIDController::new().with_p_gain(1),
        PIDController::new().with_p_gain(2),
    );
    assert_eq!(controller.regulate(&(1, 1)), -4);
    let mut controller = SeriesController(
        PIDController::new().with_p_gain(1),
        PIDController::new().with_p_gain(2),
    );
    assert_eq!(controller.regulate(&(1, 1)), -4);
    controller.set_target(&(3, 4));
    assert_eq!(controller.0.setpoint(), 3);
    assert_eq!(controller.1.setpoint(), 4);
}

#[test]
fn controllers_of_other_widths() {
    let mut wide = PIDController::<i64>::new().with_p_gain(3_000_000_000).with_setpoint(10);
    assert_eq!(wide.regulate(&4), 18_000_000_000);
    let mut narrow = PIDController::<i8>::new().with_p_gain(10).with_setpoint(5).with_limit(20);
    assert_eq!(narrow.regulate(&0), 20);
    assert_eq!(narrow.regulate(&7), -20);
    let mut short = PIDController::<i16>::new().with_i_gain(2).with_i_sum_limit(3).with_setpoint(2);
    assert_eq!(short.regulate(&0), 4);
    assert_eq!(short.regulate(&0), 6);
}
