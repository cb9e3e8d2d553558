use luhbots::sky66112::{ControlLine, HighSettable, LowSettable, Sky66112, TiedHigh, TiedLow};
use std::cell::RefCell;
use std::rc::Rc;

// A control line that records its level under its name; driving it never fails.
struct Line {
    name: &'static str,
    level: Option<bool>,
    drives: u64,
    log: Rc<RefCell<Vec<(&'static str, bool)>>>,
}

impl Line {
    fn set(&mut self, level: bool) -> Result<(), ()> {
        self.log.borrow_mut().push((self.name, level));
        self.level = Some(level);
        self.drives = self.drives.saturating_add(1);
        Ok(())
    }
}

impl ControlLine for Line {
    fn level(&self) -> Option<bool> {
        self.level
    }
    fn drives(&self) -> u64 {
        self.drives
    }
}

impl HighSettable for Line {
    type Error = ();
    fn high_infallible() -> bool {
        true
    }
    fn set_high(&mut self) -> Result<(), ()> {
        self.set(true)
    }
}

impl LowSettable for Line {
    type Error = ();
    fn low_infallible() -> bool {
        true
    }
    fn set_low(&mut self) -> Result<(), ()> {
        self.set(false)
    }
}

fn line(name: &'static str, log: &Rc<RefCell<Vec<(&'static str, bool)>>>) -> Line {
    Line { name, level: None, drives: 0, log: log.clone() }
}

#[test]
fn modes_set_their_lines() {
    let log = Rc::new(RefCell::new(Vec::new()));
    let amp = Sky66112::new(
        line("csd", &log),
        line("cps", &log),
        line("crx", &log),
        line("ctx", &log),
        line("chl", &log),
        line("ant", &log),
    );
    let amp = amp.into_sleep_mode();
    assert_eq!(*log.borrow(), vec![("csd", false)]);
    log.borrow_mut().clear();
    let amp = amp.into_transmit_high_power_mode();
    assert_eq!(*log.borrow(), vec![("csd", true), ("cps", false), ("ctx", true), ("chl", true)]);
    log.borrow_mut().clear();
    let amp = amp.into_receive_lna_mode();
    assert_eq!(*log.borrow(), vec![("csd", true), ("cps", false), ("crx", true), ("ctx", false)]);
    log.borrow_mut().clear();
    let amp = amp.into_transmit_low_power_mode();
    assert_eq!(*log.borrow(), vec![("csd", true), ("cps", false), ("ctx", true), ("chl", false)]);
    log.borrow_mut().clear();
    let amp = amp.into_receive_bypass_mode();
    assert_eq!(*log.borrow(), vec![("csd", true), ("cps", true), ("crx", true), ("ctx", false)]);
    log.borrow_mut().clear();
    let amp = amp.into_transmit_bypass_mode();
    assert_eq!(*log.borrow(), vec![("csd", true), ("cps", true), ("ctx", true)]);
    log.borrow_mut().clear();
    let mut amp = amp.into_sleep_mode2();
    assert_eq!(*log.borrow(), vec![("csd", true), ("crx", false), ("ctx", false)]);
    log.borrow_mut().clear();
    amp.use_antenna_1();
    amp.use_antenna_2();
    assert_eq!(*log.borrow(), vec![("ant", false), ("ant", true)]);
}

#[test]
fn tied_lines_always_succeed() {
    let log = Rc::new(RefCell::new(Vec::new()));
    let amp = Sky66112::new(TiedHigh::new(), line("cps", &log), TiedHigh::new(), line("ctx", &log), line("chl", &log), TiedLow::new());
    let amp = amp.into_transmit_high_power_mode();
    let mut amp = amp.into_receive_lna_mode();
    amp.use_antenna_1();
    assert_eq!(*log.borrow(), vec![("cps", false), ("ctx", true), ("chl", true), ("cps", false), ("ctx", false)]);
}
