use luhbots::rtt::RealTimeTimer;
use luhbots::static_memory_controller::{
    AccessMode, ChipSelectConfiguration, PageSize, Smc, WaitMode, NCS1, NCS3,
};
use luhbots::timer::{ClockSource, DwtTimer, TimerCounter, TimerCounterChannel, CMR_CPCTRG};
use luhbots::watchdog::{Watchdog, CR_FEED, MR_WDDIS};

#[test]
fn real_time_timer_setup() {
    // Disabled, prescaler 3, restarted; the increment interrupt is cleared.
    let rtt = RealTimeTimer::<3, false>::new(0x0002_8000);
    assert_eq!(rtt.mr, 0x0014_0003);
    assert_eq!(rtt.ar, 0xFFFF_FFFF);
    let rtt = RealTimeTimer::<32767, true>::new(0);
    assert_eq!(rtt.mr, 0x0114_7FFF);
}

#[test]
fn real_time_timer_alarm() {
    let mut rtt = RealTimeTimer::<3, false>::new(0);
    rtt.enable_alarm_interrupt();
    rtt.start(100);
    assert_eq!(rtt.ar, 33);
    // Enabled, restarted, the alarm interrupt kept.
    assert_eq!(rtt.mr, 0x0005_0003);
    assert!(!rtt.wait(0));
    assert!(rtt.wait(1));
    let mut slow = RealTimeTimer::<0, false>::new(0);
    slow.start(200_000);
    assert_eq!(slow.ar, 3);
    let mut second = RealTimeTimer::<32767, true>::new(0);
    second.start(32_768 * 5 + 1);
    assert_eq!(second.ar, 5);
    second.enable_prescaler_interrupt();
    second.disable_alarm_interrupt();
    second.disable_prescaler_interrupt();
    second.clear_interrupt_flags();
    assert_eq!(second.mr & 0x0003_0000, 0);
}

#[test]
fn timer_channel_rates() {
    let block = TimerCounter::new(7u8);
    assert_eq!(block.tc, 7);
    assert_eq!(ClockSource::MckDiv128.div(), 128);
    assert_eq!(ClockSource::Slck32768Hz.tcclks(), 4);
    let mut ch = TimerCounterChannel::<u8, 0, 15_000_000>::new(120_000_000);
    ch.clock_input(ClockSource::MckDiv8);
    assert_eq!(ch.cmr, 1);
    assert_eq!(ch.start(1_000), 15_000);
    assert_eq!(ch.cmr, 1 | CMR_CPCTRG);
    ch.enable_interrupt();
    assert!(ch.interrupt);
    assert!(ch.wait(0x10));
    assert!(!ch.clear_interrupt_flags(0x0F));
    ch.disable_interrupt();
    assert!(!ch.interrupt);
    let mut slow = TimerCounterChannel::<u8, 1, 32_768>::new(120_000_000);
    slow.clock_input(ClockSource::Slck32768Hz);
    assert_eq!(slow.start(2), 16_384);
}

#[test]
fn cycle_counter_wraps() {
    let mut t = DwtTimer::new();
    assert_eq!(t.now(100), 100);
    assert_eq!(t.now(u32::MAX), u32::MAX as u64);
    // A smaller reading is a wrap.
    assert_eq!(t.now(5), (1u64 << 32) | 5);
    // An equal reading counts as a wrap too.
    assert_eq!(t.now(5), (2u64 << 32) | 5);
}

#[test]
fn watchdog_registers() {
    let mut wd = Watchdog::new(0x3FFF_2FFF);
    assert_eq!(wd.feed(), CR_FEED);
    wd.start(0x123);
    assert_eq!(wd.mr, 0x3123_2FFF);
    let mut wd = Watchdog::new(0);
    wd.start(0xFFFF);
    assert_eq!(wd.mr, 0x0FFF_2FFF);
    wd.disable();
    assert_eq!(wd.mr, 0x0FFF_2FFF | MR_WDDIS);
}

#[test]
fn static_memory_chip_select() {
    let smc = Smc::new(NCS1::C15, NCS3::D19);
    assert_eq!(smc.base_address(0), 0x6000_0000);
    assert_eq!(smc.base_address(3), 0x6300_0000);
    let config = ChipSelectConfiguration {
        nwe_setup_length: 1,
        ncs_write_setup_length: 2,
        nrd_setup_length: 3,
        ncs_read_setup_length: 0x44,
        nwe_pulse_length: 5,
        ncs_write_pulse_length: 6,
        nrd_pulse_length: 7,
        ncs_read_pulse_length: 0x88,
        nwe_total_cycle_length: 0x210,
        nrd_total_cycle_length: 12,
        access_mode: AccessMode::ReadOnly,
        wait_mode: Some(WaitMode::Ready),
        data_float_time: 0x12,
        tdf_optimization: true,
        page_size: Some(PageSize::SixteenBytes),
    };
    let (_cs, regs) = smc.chip_select1.into_configured_state(&config);
    assert_eq!(regs.setup, 0x0403_0201);
    assert_eq!(regs.pulse, 0x0807_0605);
    assert_eq!(regs.cycle, 0x000C_0010);
    assert_eq!(regs.mode, 0x2112_0033);
    let plain = ChipSelectConfiguration { wait_mode: None, page_size: None, tdf_optimization: false, data_float_time: 0, ..config };
    let (_cs, regs) = smc.chip_select0.into_configured_state(&plain);
    assert_eq!(regs.mode, 0x3);
}
