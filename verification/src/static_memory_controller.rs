//! Static memory controller (SMC): the timing and mode register values of a chip
//! select, and the address window of each chip select.
use vstd::prelude::*;
use core::marker::PhantomData;

verus! {

/// Chip select state: not configured.
pub struct Uninitialized;

/// Chip select state: configured.
pub struct Configured;

/// External wait signal mode.
#[derive(Clone, Copy, Debug, PartialEq, Eq, Structural)]
pub enum WaitMode {
    Frozen,
    Ready,
}

/// Page size of page mode.
#[derive(Clone, Copy, Debug, PartialEq, Eq, Structural)]
pub enum PageSize {
    FourBytes,
    EightBytes,
    SixteenBytes,
    ThirtyTwoBytes,
}

/// Access mode of a chip select.
#[derive(Clone, Copy, Debug, PartialEq, Eq, Structural)]
pub enum AccessMode {
    ReadOnly,
    WriteOnly,
    ReadWrite,
}

/// The timings (in master clock cycles) and modes of a chip select.
#[derive(Clone, Copy, Debug, PartialEq, Eq, Structural)]
pub struct ChipSelectConfiguration {
    pub nwe_setup_length: u8,
    pub ncs_write_setup_length: u8,
    pub nrd_setup_length: u8,
    pub ncs_read_setup_length: u8,
    pub nwe_pulse_length: u8,
    pub ncs_write_pulse_length: u8,
    pub nrd_pulse_length: u8,
    pub ncs_read_pulse_length: u8,
    pub nwe_total_cycle_length: u16,
    pub nrd_total_cycle_length: u16,
    pub access_mode: AccessMode,
    /// Wait mode if enabled.
    pub wait_mode: Option<WaitMode>,
    pub data_float_time: u8,
    pub tdf_optimization: bool,
    /// Page size if page mode is enabled.
    pub page_size: Option<PageSize>,
}

/// The NCS1 pin choice.
#[derive(Clone, Copy, Debug, PartialEq, Eq, Structural)]
pub enum NCS1 {
    C15,
    D18,
}

/// The NCS3 pin choice.
#[derive(Clone, Copy, Debug, PartialEq, Eq, Structural)]
pub enum NCS3 {
    C12,
    D19,
}

/// `SMC_SETUPx`: four 6-bit setup lengths.
pub open spec fn spec_setup(c: ChipSelectConfiguration) -> u32 {
    ((c.nwe_setup_length as u32) & 0x3F) | (((c.ncs_write_setup_length as u32) & 0x3F) << 8u32)
        | (((c.nrd_setup_length as u32) & 0x3F) << 16u32) | (((c.ncs_read_setup_length as u32) & 0x3F) << 24u32)
}

/// `SMC_PULSEx`: four 7-bit pulse lengths.
pub open spec fn spec_pulse(c: ChipSelectConfiguration) -> u32 {
    ((c.nwe_pulse_length as u32) & 0x7F) | (((c.ncs_write_pulse_length as u32) & 0x7F) << 8u32)
        | (((c.nrd_pulse_length as u32) & 0x7F) << 16u32) | (((c.ncs_read_pulse_length as u32) & 0x7F) << 24u32)
}

/// `SMC_CYCLEx`: two 9-bit cycle lengths.
pub open spec fn spec_cycle(c: ChipSelectConfiguration) -> u32 {
    ((c.nwe_total_cycle_length as u32) & 0x1FF) | (((c.nrd_total_cycle_length as u32) & 0x1FF) << 16u32)
}

/// `SMC_MODEx`, written from its reset value (0x1000_0003, which has both the read
/// and the write mode bits set, so that every access mode keeps both): the wait
/// mode (`EXNW_MODE`, 2 frozen, 3 ready, 0 off), the data float time, the
/// optimization bit, and page mode with its size.
pub open spec fn spec_mode(c: ChipSelectConfiguration) -> u32 {
    let exnw: u32 = match c.wait_mode {
        Some(WaitMode::Frozen) => 2,
        Some(WaitMode::Ready) => 3,
        None => 0,
    };
    let page: u32 = match c.page_size {
        Some(PageSize::FourBytes) => 0x0100_0000,
        Some(PageSize::EightBytes) => 0x1100_0000,
        Some(PageSize::SixteenBytes) => 0x2100_0000,
        Some(PageSize::ThirtyTwoBytes) => 0x3100_0000,
        None => 0,
    };
    0x3u32 | (exnw << 4u32) | (((c.data_float_time as u32) & 0xF) << 16u32)
        | (if c.tdf_optimization { 0x0010_0000u32 } else { 0u32 }) | page
}

/// Chip select `CS` (0..=3) of the controller in state `MODE`.
pub struct ChipSelect<const CS: u8, MODE> {
    pub mode: PhantomData<MODE>,
}

/// The register values that configure a chip select, in the order they must be
/// written (the mode register last validates the configuration).
#[derive(Clone, Copy, Debug, PartialEq, Eq, Structural)]
pub struct ChipSelectRegisters {
    pub setup: u32,
    pub pulse: u32,
    pub cycle: u32,
    pub mode: u32,
}

impl<const CS: u8, MODE> ChipSelect<CS, MODE> {
    /// Configures the chip select: returns the configured chip select and the
    /// register values to write.
    pub fn into_configured_state(self, config: &ChipSelectConfiguration)
        -> (r: (ChipSelect<CS, Configured>, ChipSelectRegisters))
        ensures
            r.1 == (ChipSelectRegisters {
                setup: spec_setup(*config),
                pulse: spec_pulse(*config),
                cycle: spec_cycle(*config),
                mode: spec_mode(*config),
            }),
    {
        let setup = ((config.nwe_setup_length as u32) & 0x3F) | (((config.ncs_write_setup_length as u32) & 0x3F) << 8u32)
            | (((config.nrd_setup_length as u32) & 0x3F) << 16u32) | (((config.ncs_read_setup_length as u32) & 0x3F) << 24u32);
        let pulse = ((config.nwe_pulse_length as u32) & 0x7F) | (((config.ncs_write_pulse_length as u32) & 0x7F) << 8u32)
            | (((config.nrd_pulse_length as u32) & 0x7F) << 16u32) | (((config.ncs_read_pulse_length as u32) & 0x7F) << 24u32);
        let cycle = ((config.nwe_total_cycle_length as u32) & 0x1FF) | (((config.nrd_total_cycle_length as u32) & 0x1FF) << 16u32);
        let exnw: u32 = match config.wait_mode {
            Some(WaitMode::Frozen) => 2,
            Some(WaitMode::Ready) => 3,
            None => 0,
        };
        let page: u32 = match config.page_size {
            Some(PageSize::FourBytes) => 0x0100_0000,
            Some(PageSize::EightBytes) => 0x1100_0000,
            Some(PageSize::SixteenBytes) => 0x2100_0000,
            Some(PageSize::ThirtyTwoBytes) => 0x3100_0000,
            None => 0,
        };
        let mode = 0x3u32 | (exnw << 4u32) | (((config.data_float_time as u32) & 0xF) << 16u32)
            | (if config.tdf_optimization { 0x0010_0000u32 } else { 0u32 }) | page;
        (ChipSelect { mode: PhantomData }, ChipSelectRegisters { setup, pulse, cycle, mode })
    }
}

/// The static memory controller with its four chip selects, unconfigured.
pub struct Smc {
    pub chip_select0: ChipSelect<0, Uninitialized>,
    pub chip_select1: ChipSelect<1, Uninitialized>,
    pub chip_select2: ChipSelect<2, Uninitialized>,
    pub chip_select3: ChipSelect<3, Uninitialized>,
}

impl Smc {
    /// The controller, with the pins for NCS1 and NCS3 chosen.
    pub fn new(ncs1: NCS1, ncs3: NCS3) -> (r: Self) {
        Smc {
            chip_select0: ChipSelect { mode: PhantomData },
            chip_select1: ChipSelect { mode: PhantomData },
            chip_select2: ChipSelect { mode: PhantomData },
            chip_select3: ChipSelect { mode: PhantomData },
        }
    }

    /// The start of the 16 MB address window of chip select 0..=3.
    pub fn base_address(&self, chip_select: u8) -> (r: usize)
        requires
            chip_select < 4,
        ensures
            r == 0x6000_0000 + 0x0100_0000 * chip_select,
    {
        match chip_select {
            0 => 0x6000_0000,
            1 => 0x6100_0000,
            2 => 0x6200_0000,
            _ => 0x6300_0000,
        }
    }
}

} // verus!
