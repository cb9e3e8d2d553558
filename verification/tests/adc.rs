use luhbots::adc::{
    Adc, FreeRunning, InterruptAdc, Powersaving, SingleConversion, SingleEndedGain, EMR_TAG, MR_FREERUN,
    MR_USEQ, TEMP_SENSOR_CHANNEL,
};

#[test]
fn setup_registers() {
    let adc = Adc::new(120_000_000);
    // Prescaler 2, start-up 5, settling 1, ANACH, tracking 10, transfer 2.
    assert_eq!(adc.mr, 0x2A95_0200);
    assert_eq!((adc.emr, adc.cgr, adc.cor, adc.chsr, adc.imr), (0, 0, 0, 0, 0));
    assert!(adc.temp_sensor_on);
    assert_eq!(adc.temp_sensor(), TEMP_SENSOR_CHANNEL);
    assert_eq!(Adc::new(40_000_000).mr & 0xFF00, 0);
}

#[test]
fn gain_sets_only_its_channel() {
    let mut adc = Adc::new(120_000_000);
    adc.gain(3, SingleEndedGain::Gain4x);
    assert_eq!(adc.cgr, 0xC0);
    adc.gain(0, SingleEndedGain::Gain2x);
    assert_eq!(adc.cgr, 0xC2);
    adc.gain(3, SingleEndedGain::Gain1x);
    assert_eq!(adc.cgr, 0x42);
    adc.gain(15, SingleEndedGain::Gain4x);
    assert_eq!(adc.cgr, 0xC000_0042);
}

#[test]
fn offsets_channels_and_interrupts() {
    let mut adc = Adc::new(120_000_000);
    adc.offset(5, true);
    adc.offset(6, true);
    adc.offset(5, false);
    assert_eq!(adc.cor, 0x40);
    adc.enable_channel(0);
    adc.enable_channel(15);
    adc.disable_channel(0);
    assert_eq!(adc.chsr, 0x8000);
    adc.enable_interrupts(2);
    assert_eq!(adc.imr, 0x4);
    adc.disable_interrupts(2);
    assert_eq!(adc.imr, 0);
}

#[test]
fn mode_bits() {
    let mut adc = Adc::new(120_000_000);
    let mr = adc.mr;
    adc.enable_tags();
    assert_eq!(adc.emr, EMR_TAG);
    adc.disable_tags();
    assert_eq!(adc.emr, 0);
    adc.enable_sequencing();
    assert_eq!(adc.mr, mr | MR_USEQ);
    adc.disable_sequencing();
    adc.enable_freerunning();
    assert_eq!(adc.mr, mr | MR_FREERUN);
    adc.disable_freerunning();
    assert_eq!(adc.mr, mr);
    adc.powersaving(Powersaving::FastWakeup);
    assert_eq!(adc.mr, mr | 0x60);
    adc.powersaving(Powersaving::Sleep);
    assert_eq!(adc.mr, mr | 0x20);
    adc.powersaving(Powersaving::Normal);
    assert_eq!(adc.mr, mr);
}

#[test]
fn sequence_registers() {
    let mut adc = Adc::new(120_000_000);
    adc.sequence(&[1, 2, 3, 4, 5, 6, 7, 8, 9, 10]);
    assert_eq!((adc.seqr1, adc.seqr2), (0x8765_4321, 0xA9));
    adc.sequence(&[15]);
    assert_eq!((adc.seqr1, adc.seqr2), (0x8765_432F, 0xA9));
}

#[test]
fn results_of_interrupting_channels() {
    let mut adc = Adc::new(120_000_000);
    assert!(adc.calibration_ready(0x0080_0000));
    assert!(!adc.calibration_ready(0x1));
    // No result while the channel's interrupt is off.
    assert_eq!(adc.service_interrupt_ready(4, 0x10, 0xF123), None);
    adc.enable_interrupts(4);
    assert_eq!(adc.service_interrupt_ready(4, 0x10, 0xF123), Some(0x123));
    assert_eq!(adc.service_interrupt_ready(4, 0x08, 0xF123), None);
}

#[test]
fn single_conversion_disables_its_interrupt() {
    let mut adc = Adc::new(120_000_000);
    adc.enable_channel(1);
    let mut single: InterruptAdc<SingleConversion> = InterruptAdc::from(adc);
    // The start command is ADC_CR.START.
    assert_eq!(single.start_conversion(1), 0x2);
    assert_eq!(single.adc.imr, 0x2);
    assert_eq!(single.service_interrupt_ready(1, 0x2, 0x0ABC), Some(0xABC));
    assert_eq!(single.adc.imr, 0);
    assert_eq!(single.service_interrupt_ready(1, 0x2, 0x0ABC), None);
    let adc = single.revert();
    assert_eq!(adc.chsr, 0x2);
}

#[test]
fn free_running_conversion() {
    let adc = Adc::new(120_000_000);
    let mr = adc.mr;
    let mut free: InterruptAdc<FreeRunning> = InterruptAdc::from(adc);
    assert_eq!(free.start_conversion(7), 0x2);
    assert_eq!((free.adc.mr, free.adc.imr), (mr | MR_FREERUN, 0x80));
    assert_eq!(free.service_interrupt_ready(7, 0x80, 0x7FF), Some(0x7FF));
    assert_eq!(free.adc.imr, 0x80);
    free.stop_conversion(7);
    assert_eq!((free.adc.mr, free.adc.imr), (mr, 0));
}

#[test]
fn pdc_modes_keep_the_registers() {
    let mut adc = Adc::new(120_000_000);
    adc.enable_channel(3);
    // Reverting stops the PDC receiver: PTCR.RXTDIS.
    let dma = adc.with_pdc();
    assert_eq!(dma.revert(), (adc, 0x2));
    let dma = adc.with_continuous_pdc();
    assert_eq!(dma.revert(), (adc, 0x2));
}

#[test]
fn synchronous_conversion_waits_for_end_of_conversion() {
    let adc = Adc::new(120_000_000);
    // Interrupts need not be enabled: only the channel's EOC flag counts.
    assert_eq!(adc.synchronous_convert(4, 0x08, 0xF123), None);
    assert_eq!(adc.synchronous_convert(4, 0x10, 0xF123), Some(0x123));
    assert_eq!(adc.synchronous_convert(15, 0x8000, 0x0FFF), Some(0x0FFF));
}
