use luhbots::spi::{
    variable_pcs_to_cs, BitWidth, ChipSelectActive, ChipSelectSettings, Error, Mode, NbError, PeripheralSelectMode,
    Phase, Polarity, SpiMaster, SpiU16, SpiU8,
};

fn settings(baud: u32) -> ChipSelectSettings {
    let mode = Mode { polarity: Polarity::IdleLow, phase: Phase::CaptureOnFirstTransition };
    ChipSelectSettings::new(mode, ChipSelectActive::ActiveAfterTransfer, BitWidth::Width8Bit, baud, 0, 0, 120_000_000)
}

#[test]
fn mode_register() {
    let spi = SpiMaster::<SpiU8>::new(PeripheralSelectMode::Fixed, false, false, 0, true);
    assert_eq!(spi.mr, 0x11);
    assert_eq!(spi.csr, [0; 4]);
    let spi = SpiMaster::<SpiU8>::new(PeripheralSelectMode::Variable, true, false, 6, false);
    assert_eq!(spi.mr, 0x0600_0023);
    let spi = SpiMaster::<SpiU16>::new(PeripheralSelectMode::ChipSelectDecode, false, true, 0, false);
    assert_eq!(spi.mr, 0x87);
}

#[test]
fn clock_divider_rounds_up() {
    assert_eq!(settings(12_000_000).scbr, 10);
    assert_eq!(settings(7_000_000).scbr, 18);
    assert_eq!(settings(1_000_000).scbr, 120);
}

#[test]
fn chip_select_registers() {
    let mut spi = SpiMaster::<SpiU8>::new(PeripheralSelectMode::Fixed, false, false, 0, true);
    assert_eq!(spi.cs_setup(3, settings(12_000_000)), Ok(()));
    assert_eq!(spi.csr, [0, 0, 0, 0x0A0A]);
    let mode = Mode { polarity: Polarity::IdleHigh, phase: Phase::CaptureOnSecondTransition };
    let s = ChipSelectSettings::new(mode, ChipSelectActive::InactiveAfterEachTransfer, BitWidth::Width16Bit, 12_000_000, 3, 4, 120_000_000);
    assert_eq!(spi.cs_setup(0, s), Ok(()));
    assert_eq!(spi.csr[0], 0x0403_0A85);
    assert_eq!(spi.cs_setup(4, s), Err(Error::InvalidCs(4)));
    // With decoding, four chip selects share a register.
    let mut spi = SpiMaster::<SpiU8>::new(PeripheralSelectMode::ChipSelectDecode, false, false, 0, true);
    assert_eq!(spi.cs_setup(13, settings(12_000_000)), Ok(()));
    assert_eq!(spi.csr, [0, 0, 0, 0x0A0A]);
    assert_eq!(spi.cs_setup(15, settings(12_000_000)), Err(Error::InvalidCs(15)));
}

#[test]
fn chip_select_selection() {
    let mut spi = SpiMaster::<SpiU8>::new(PeripheralSelectMode::Fixed, false, false, 0, true);
    assert_eq!(spi.cs_select(2), Ok(()));
    assert_eq!(spi.mr, 0x0003_0011);
    assert_eq!(spi.cs_select(9), Ok(()));
    assert_eq!(spi.mr, 0x000F_0011);
    let mut spi = SpiMaster::<SpiU8>::new(PeripheralSelectMode::Variable, false, false, 0, true);
    assert_eq!(spi.cs_select(3), Ok(()));
    assert_eq!(spi.cs, 0b0111);
    assert_eq!(spi.cs_select(4), Err(Error::InvalidCs(4)));
    assert_eq!(spi.cs, 0b0111);
    let mut spi = SpiMaster::<SpiU8>::new(PeripheralSelectMode::ChipSelectDecode, false, false, 0, true);
    assert_eq!(spi.cs_select(12), Ok(()));
    assert_eq!(spi.cs, 12);
    assert_eq!(spi.cs_select(16), Err(Error::InvalidCs(16)));
}

#[test]
fn pcs_values() {
    assert_eq!(variable_pcs_to_cs(0xE), Ok(0));
    assert_eq!(variable_pcs_to_cs(0xD), Ok(1));
    assert_eq!(variable_pcs_to_cs(0xB), Ok(2));
    assert_eq!(variable_pcs_to_cs(0x7), Ok(3));
    assert_eq!(variable_pcs_to_cs(0xF), Err(Error::InvalidCs(0xF)));
}

#[test]
fn reading_words() {
    let spi = SpiMaster::<SpiU16>::new(PeripheralSelectMode::Fixed, false, false, 0, true);
    assert_eq!(spi.read(0x0001_0001, 0x000E_BEEF), Ok(SpiU16(0xBEEF)));
    assert_eq!(spi.read(0x0001_0000, 0xBEEF), Err(NbError::WouldBlock));
    assert_eq!(spi.read(0x0001_0009, 0xBEEF), Err(NbError::Other(Error::Overrun)));
    assert_eq!(spi.read(0x0001_0005, 0xBEEF), Err(NbError::Other(Error::ModeFault)));
    assert_eq!(spi.read(0x0000_0001, 0xBEEF), Err(NbError::Other(Error::SpiDisabled)));
    // In variable mode the word must come from the selected chip.
    let mut spi = SpiMaster::<SpiU16>::new(PeripheralSelectMode::Variable, false, false, 0, true);
    assert_eq!(spi.cs_select(1), Ok(()));
    assert_eq!(spi.read(0x0001_0001, 0x000D_1234), Ok(SpiU16(0x1234)));
    assert_eq!(spi.read(0x0001_0001, 0x000E_1234), Err(NbError::Other(Error::UnexpectedPcs(0x1234, 0xE))));
    assert_eq!(spi.read(0x0001_0001, 0x000F_1234), Err(NbError::Other(Error::InvalidCs(0xF))));
}

#[test]
fn sending_words() {
    let spi = SpiMaster::<SpiU16>::new(PeripheralSelectMode::Fixed, false, false, 0, true);
    assert_eq!(spi.send(0x0001_0002, SpiU16(0xA55A)), Ok(0xA55A));
    assert_eq!(spi.send(0x0001_0000, SpiU16(0xA55A)), Err(NbError::WouldBlock));
    assert_eq!(spi.send(0x0000_0002, SpiU16(0xA55A)), Err(NbError::Other(Error::SpiDisabled)));
    let mut spi = SpiMaster::<SpiU16>::new(PeripheralSelectMode::Variable, false, false, 0, true);
    assert_eq!(spi.cs_select(2), Ok(()));
    assert!(!spi.lastxfer(true));
    assert_eq!(spi.send(0x0001_0002, SpiU16(0x00FF)), Ok(0x0103_00FF));
    let mut fixed = SpiMaster::<SpiU16>::new(PeripheralSelectMode::Fixed, false, false, 0, true);
    assert!(fixed.lastxfer(true));
    assert!(!fixed.lastxfer);
}

#[test]
fn interrupt_mask() {
    let mut spi = SpiMaster::<SpiU8>::new(PeripheralSelectMode::Fixed, false, false, 0, true);
    spi.enable_rdrf_interrupt();
    spi.enable_tdre_interrupt();
    spi.enable_modf_interrupt();
    spi.enable_ovres_interrupt();
    assert_eq!(spi.imr, 0xF);
    spi.disable_tdre_interrupt();
    spi.disable_ovres_interrupt();
    assert_eq!(spi.imr, 0x5);
    spi.disable_rdrf_interrupt();
    spi.disable_modf_interrupt();
    assert_eq!(spi.imr, 0);
}

#[test]
fn word_conversions() {
    assert_eq!(SpiU8::from(0x1234u16), SpiU8(0x34));
    assert_eq!(SpiU16::from(SpiU8(7)), SpiU16(7));
    assert_eq!(u16::from(SpiU16(0xABCD)), 0xABCD);
    assert_eq!(SpiU8::from(SpiU16(0x1FF)), SpiU8(0xFF));
}

#[test]
fn write_step_waits_for_the_empty_register_and_reports_mode_faults() {
    let spi: SpiMaster<SpiU16> = SpiMaster::new(PeripheralSelectMode::Fixed, false, false, 0, true);
    // TDRE (bit 1) clear: nothing to write yet.
    assert_eq!(spi.spi_write_step(0x0, SpiU16(0x1234)), (None, None));
    // TDRE set: the word goes to TDR.
    assert_eq!(spi.spi_write_step(0x2, SpiU16(0x1234)), (Some(0x1234), None));
    // TDRE and MODF (bit 2): the word is written and the sequence ends.
    assert_eq!(spi.spi_write_step(0x6, SpiU16(0x1234)), (Some(0x1234), Some(Error::ModeFault)));
}
