use luhbots::kicker::dac::{Dac, OutputPin, R2R};
use luhbots::kicker::{charge_plan, kick_done, kick_done_threshold, ChargePlan};
use std::cell::RefCell;
use std::rc::Rc;

// A pin that records each level written to it, together with its index, in a
// log shared by all pins; it fails on the write number `fail_at`.
struct LogPin {
    index: usize,
    log: Rc<RefCell<Vec<(usize, bool)>>>,
    fail_at: Option<usize>,
}

impl OutputPin for LogPin {
    type Error = usize;

    fn set_state(&mut self, high: bool) -> Result<(), usize> {
        let n = self.log.borrow().len();
        self.log.borrow_mut().push((self.index, high));
        if self.fail_at == Some(n) {
            Err(self.index)
        } else {
            Ok(())
        }
    }
}

fn pins<const N: usize>(log: &Rc<RefCell<Vec<(usize, bool)>>>, fail_at: Option<usize>) -> [LogPin; N] {
    core::array::from_fn(|index| LogPin { index, log: log.clone(), fail_at })
}

#[test]
fn dac_writes_the_bits_from_the_top_pin_down() {
    let log = Rc::new(RefCell::new(Vec::new()));
    let mut dac = R2R::new(pins::<4>(&log, None));
    assert_eq!(dac.set(0xA000), Ok(()));
    assert_eq!(*log.borrow(), vec![(3, true), (2, false), (1, true), (0, false)]);
}

#[test]
fn dac_with_more_pins_than_bits_writes_low() {
    let log = Rc::new(RefCell::new(Vec::new()));
    let mut dac = R2R::new(pins::<18>(&log, None));
    assert_eq!(dac.set(0xFFFF), Ok(()));
    let levels: Vec<bool> = log.borrow().iter().map(|p| p.1).collect();
    assert_eq!(&levels[..16], &[true; 16][..]);
    assert_eq!(&levels[16..], &[false, false][..]);
    assert_eq!(log.borrow()[0].0, 17);
    assert_eq!(log.borrow()[17].0, 0);
}

#[test]
fn dac_stops_at_the_failing_pin() {
    let log = Rc::new(RefCell::new(Vec::new()));
    let mut dac = R2R::new(pins::<8>(&log, Some(2)));
    assert_eq!(dac.set(0xFF00), Err(5));
    assert_eq!(*log.borrow(), vec![(7, true), (6, true), (5, true)]);
}

#[test]
fn charging_plans() {
    assert_eq!(charge_plan(100, 0), ChargePlan::Disable);
    assert_eq!(charge_plan(0, 200), ChargePlan::Charge { discharge_until: None, dac_value: 43_600 });
    assert_eq!(charge_plan(50, 50), ChargePlan::Charge { discharge_until: None, dac_value: 10_900 });
    assert_eq!(charge_plan(100, 50), ChargePlan::Charge { discharge_until: Some(650), dac_value: 10_900 });
    assert_eq!(charge_plan(255, 255), ChargePlan::Charge { discharge_until: None, dac_value: 55_590 });
}

#[test]
fn kick_threshold() {
    assert_eq!(kick_done_threshold(), 390);
    assert!(kick_done(0));
    assert!(kick_done(390));
    assert!(!kick_done(391));
}
