use luhbots::clock::{
    calculate_master_clock_frequency, crystal_frequency, disable_plla_clock, disable_pllb_clock, reenable_pllb_clock,
    wait_for_pllb_lock, enable_plla_clock,
    get_flash_wait_states_for_clock_frequency, main_clock_setup, peripheral_clock_bit,
    set_flash_wait_states_to_match_frequency, set_flash_wait_states_to_maximum, setup_main_clock,
    setup_slow_clock, usb_divider_field, ClockStep, MainClock, MainClockSource, SlowClock,
    SlowClockStep,
};

// Applies the steps of a clock bring-up to register values.
fn run(steps: &[ClockStep], mut mor: u32, mut pllar: u32, mut mckr: u32) -> (u32, u32, u32) {
    for s in steps {
        match *s {
            ClockStep::ModifyMor { clear, set } => mor = (mor & !clear) | set,
            ClockStep::ModifyPllar { clear, set } => pllar = (pllar & !clear) | set,
            ClockStep::ModifyMckr { clear, set } => mckr = (mckr & !clear) | set,
            ClockStep::WaitStatus(_) => {}
        }
    }
    (mor, pllar, mckr)
}

#[test]
fn main_clock_settings() {
    let s = main_clock_setup(MainClock::RcOscillator4Mhz);
    assert_eq!((s.source, s.multiplier, s.divider, s.prescaler), (MainClockSource::FastRc4Mhz, 30, 1, 0));
    let s = main_clock_setup(MainClock::Crystal16Mhz);
    assert_eq!((s.source, s.multiplier, s.divider, s.prescaler), (MainClockSource::Crystal, 15, 1, 1));
    let s = main_clock_setup(MainClock::Crystal12Mhz);
    assert_eq!((s.multiplier, s.prescaler), (20, 1));
}

#[test]
fn master_clock_from_registers() {
    // PLLA from the 12 MHz RC oscillator: 12 MHz * (9 + 1) / 1, no prescaler.
    let mckr = 0x0000_0002;
    let mor = 2 << 4;
    let pllar = (9 << 16) | 1;
    assert_eq!(calculate_master_clock_frequency(mckr, mor, pllar, 16_000_000), 120_000_000);
    // From a 16 MHz crystal: 16 MHz * 15 / 1 / 2.
    let mckr = 0x0000_0012;
    let mor = 0x0100_0000;
    let pllar = (14 << 16) | 1;
    assert_eq!(calculate_master_clock_frequency(mckr, mor, pllar, 16_000_000), 120_000_000);
    // The same registers with a 12 MHz crystal: 12 MHz * 15 / 2.
    assert_eq!(calculate_master_clock_frequency(mckr, mor, pllar, 12_000_000), 90_000_000);
    // Prescaler code 7 divides by three.
    let mckr = 0x0000_0072;
    assert_eq!(calculate_master_clock_frequency(mckr, mor, pllar, 16_000_000), 80_000_000);
    assert_eq!(crystal_frequency(MainClock::Crystal12Mhz), 12_000_000);
    assert_eq!(crystal_frequency(MainClock::Crystal16Mhz), 16_000_000);
}

#[test]
fn every_main_clock_runs_at_120mhz() {
    for mc in [
        MainClock::RcOscillator4Mhz,
        MainClock::RcOscillator8Mhz,
        MainClock::RcOscillator12Mhz,
        MainClock::Crystal12Mhz,
        MainClock::Crystal16Mhz,
    ] {
        let steps = setup_main_clock(mc);
        for (mor, pllar, mckr) in [(0, 0, 0), (0xFFFF_FFFF, 0xFFFF_FFFF, 0xFFFF_FFFF), (0x0100_0021, 0x2003_3F01, 0x11)] {
            let (mor, pllar, mckr) = run(&steps, mor, pllar, mckr);
            assert_eq!(calculate_master_clock_frequency(mckr, mor, pllar, crystal_frequency(mc)), 120_000_000);
        }
    }
}

#[test]
fn main_clock_steps_of_rc_oscillator() {
    let steps = setup_main_clock(MainClock::RcOscillator8Mhz);
    assert_eq!(steps.len(), 13);
    assert_eq!(steps[0], ClockStep::ModifyMor { clear: 0x00FF_0000, set: 0x0037_0008 });
    assert_eq!(steps[2], ClockStep::ModifyMor { clear: 0x00FF_0070, set: 0x0037_0010 });
    assert_eq!(steps[6], ClockStep::ModifyPllar { clear: 0x07FF_3FFF, set: 0x200E_0501 });
    assert_eq!(steps[12], ClockStep::WaitStatus(0x8));
}

#[test]
fn slow_clock_steps() {
    let (steps, f) = setup_slow_clock(SlowClock::RcOscillator32Khz);
    assert!(steps.is_empty());
    assert_eq!(f, 32768);
    let (steps, _) = setup_slow_clock(SlowClock::OscillatorBypass32Khz);
    assert_eq!(steps, vec![SlowClockStep::ModifySupcMr(0xA510_0000), SlowClockStep::WriteSupcCr(0xA500_0008)]);
}

#[test]
fn flash_wait_states() {
    assert_eq!(get_flash_wait_states_for_clock_frequency(19_999_999), 0);
    assert_eq!(get_flash_wait_states_for_clock_frequency(20_000_000), 1);
    assert_eq!(get_flash_wait_states_for_clock_frequency(99_999_999), 4);
    assert_eq!(get_flash_wait_states_for_clock_frequency(120_000_000), 5);
    assert_eq!(set_flash_wait_states_to_maximum(0), 0x0400_0500);
    assert_eq!(set_flash_wait_states_to_match_frequency(0xFFFF_FFFF, 50_000_000), 0xFFFF_F2FF);
}

#[test]
fn plla_register() {
    assert_eq!(enable_plla_clock(0, 20, 1), 0x2013_0501);
    assert_eq!(disable_plla_clock(0x2013_0501), 0x2000_0501);
}

#[test]
fn usb_and_peripheral_clocks() {
    assert_eq!(usb_divider_field(MainClock::Crystal12Mhz), Some(4));
    assert_eq!(usb_divider_field(MainClock::RcOscillator8Mhz), None);
    assert_eq!(peripheral_clock_bit(19), (0, 1 << 19));
    assert_eq!(peripheral_clock_bit(44), (1, 1 << 12));
}

#[test]
fn pllb_stopped_and_restarted_with_saved_multiplier() {
    // DIVB 1, PLLBCOUNT 5, MULB 7 (a multiplier of 8).
    let running: u32 = (7 << 16) | (5 << 8) | 1;
    let stopped = disable_pllb_clock(running);
    assert_eq!(stopped, (5 << 8) | 1);
    assert_eq!(reenable_pllb_clock(stopped, 7), running);
    assert_eq!(wait_for_pllb_lock(), ClockStep::WaitStatus(0x4));
}
