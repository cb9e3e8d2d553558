//! SPI master: the mode and chip select register values, the chip select
//! bookkeeping of fixed and variable peripheral select, and the decisions of
//! reading and sending a word given the status register.
//!
//! `SpiMaster` holds the values of `SPI_MR`, `SPI_CSRx` and of the interrupt mask
//! that its operations produce; the caller writes them to the peripheral.
use vstd::prelude::*;
use core::marker::PhantomData;
use vstd::std_specs::convert::FromSpecImpl;
use crate::pdc::{RxDma, TxDma, RxTxDma};

verus! {

/// A data word of up to 8 bits.
#[derive(Clone, Copy, Debug, PartialEq, Eq, Structural)]
pub struct SpiU8(pub u8);

/// A data word of up to 16 bits.
#[derive(Clone, Copy, Debug, PartialEq, Eq, Structural)]
pub struct SpiU16(pub u16);

impl From<u8> for SpiU8 {
    fn from(val: u8) -> (r: Self) {
        SpiU8(val)
    }
}

impl FromSpecImpl<u8> for SpiU8 {
    open spec fn obeys_from_spec() -> bool { true }
    open spec fn from_spec(val: u8) -> SpiU8 { SpiU8(val) }
}

impl From<u16> for SpiU8 {
    /// Keeps the low 8 bits, the only ones used in 8-bit mode.
    fn from(val: u16) -> (r: Self) {
        SpiU8(val as u8)
    }
}

impl FromSpecImpl<u16> for SpiU8 {
    open spec fn obeys_from_spec() -> bool { true }
    open spec fn from_spec(val: u16) -> SpiU8 { SpiU8(val as u8) }
}

impl From<SpiU16> for SpiU8 {
    fn from(val: SpiU16) -> (r: Self) {
        SpiU8(val.0 as u8)
    }
}

impl FromSpecImpl<SpiU16> for SpiU8 {
    open spec fn obeys_from_spec() -> bool { true }
    open spec fn from_spec(val: SpiU16) -> SpiU8 { SpiU8(val.0 as u8) }
}

impl From<SpiU8> for u8 {
    fn from(val: SpiU8) -> (r: Self) {
        val.0
    }
}

impl FromSpecImpl<SpiU8> for u8 {
    open spec fn obeys_from_spec() -> bool { true }
    open spec fn from_spec(val: SpiU8) -> u8 { val.0 }
}

impl From<u8> for SpiU16 {
    fn from(val: u8) -> (r: Self) {
        SpiU16(val as u16)
    }
}

impl FromSpecImpl<u8> for SpiU16 {
    open spec fn obeys_from_spec() -> bool { true }
    open spec fn from_spec(val: u8) -> SpiU16 { SpiU16(val as u16) }
}

impl From<u16> for SpiU16 {
    fn from(val: u16) -> (r: Self) {
        SpiU16(val)
    }
}

impl FromSpecImpl<u16> for SpiU16 {
    open spec fn obeys_from_spec() -> bool { true }
    open spec fn from_spec(val: u16) -> SpiU16 { SpiU16(val) }
}

impl From<SpiU8> for SpiU16 {
    fn from(val: SpiU8) -> (r: Self) {
        SpiU16(val.0 as u16)
    }
}

impl FromSpecImpl<SpiU8> for SpiU16 {
    open spec fn obeys_from_spec() -> bool { true }
    open spec fn from_spec(val: SpiU8) -> SpiU16 { SpiU16(val.0 as u16) }
}

impl From<SpiU16> for u16 {
    fn from(val: SpiU16) -> (r: Self) {
        val.0
    }
}

impl FromSpecImpl<SpiU16> for u16 {
    open spec fn obeys_from_spec() -> bool { true }
    open spec fn from_spec(val: SpiU16) -> u16 { val.0 }
}

/// SPI errors.
#[derive(Clone, Copy, Debug, PartialEq, Eq, Structural)]
pub enum Error {
    /// Overrun occurred.
    Overrun,
    /// Underrun occurred (slave mode only).
    Underrun,
    /// Mode fault occurred.
    ModeFault,
    /// SPI disabled.
    SpiDisabled,
    /// Invalid chip select.
    InvalidCs(u8),
    /// Fixed mode set.
    FixedModeSet,
    /// Variable mode set.
    VariableModeSet,
    /// Data read with an unexpected chip select (data, pcs).
    UnexpectedPcs(u16, u8),
}

/// The outcome of a non-blocking operation that did not complete.
#[derive(Clone, Copy, Debug, PartialEq, Eq, Structural)]
pub enum NbError {
    /// Not possible right now.
    WouldBlock,
    Other(Error),
}

/// Chip select behaviour after a transfer (`CSAAT`, `CSNAAT`).
#[derive(Clone, Copy, Debug, PartialEq, Eq, Structural)]
pub enum ChipSelectActive {
    /// csaat = 1, csnaat = 0.
    ActiveAfterTransfer,
    /// csaat = 0, csnaat = 0.
    ActiveOnConsecutiveTransfers,
    /// csaat = 0, csnaat = 1.
    InactiveAfterEachTransfer,
}

/// Bits per transfer; above 8 use 16-bit words.
#[derive(Clone, Copy, Debug, PartialEq, Eq, Structural)]
pub enum BitWidth {
    Width8Bit,
    Width9Bit,
    Width10Bit,
    Width11Bit,
    Width12Bit,
    Width13Bit,
    Width14Bit,
    Width15Bit,
    Width16Bit,
}

/// The `SPI_CSRx.BITS` code of a width: bits minus eight.
pub open spec fn spec_bits_code(bits: BitWidth) -> u32 {
    match bits {
        BitWidth::Width8Bit => 0,
        BitWidth::Width9Bit => 1,
        BitWidth::Width10Bit => 2,
        BitWidth::Width11Bit => 3,
        BitWidth::Width12Bit => 4,
        BitWidth::Width13Bit => 5,
        BitWidth::Width14Bit => 6,
        BitWidth::Width15Bit => 7,
        BitWidth::Width16Bit => 8,
    }
}

/// Peripheral select mode.
#[derive(Clone, Copy, Debug, PartialEq, Eq, Structural)]
pub enum PeripheralSelectMode {
    /// Fixed peripheral select (ps = 0, pcsdec = 0).
    Fixed,
    /// Variable peripheral select (ps = 1, pcsdec = 0).
    Variable,
    /// Variable, with the chip selects decoded by an external 4 to 16 mux (ps = 1,
    /// pcsdec = 1).
    ChipSelectDecode,
}

/// Clock polarity.
#[derive(Clone, Copy, Debug, PartialEq, Eq, Structural)]
pub enum Polarity {
    IdleLow,
    IdleHigh,
}

/// Clock phase.
#[derive(Clone, Copy, Debug, PartialEq, Eq, Structural)]
pub enum Phase {
    CaptureOnFirstTransition,
    CaptureOnSecondTransition,
}

/// SPI mode: polarity and phase.
#[derive(Clone, Copy, Debug, PartialEq, Eq, Structural)]
pub struct Mode {
    pub polarity: Polarity,
    pub phase: Phase,
}

/// Settings of one chip select: mode, behaviour after transfers, width, serial
/// clock divider (`SCBR`, not zero), delay before the clock (`DLYBS`) and between
/// consecutive transfers (`DLYBCT`).
#[derive(Clone, Copy, Debug, PartialEq, Eq, Structural)]
pub struct ChipSelectSettings {
    pub mode: Mode,
    pub csa: ChipSelectActive,
    pub scbr: u8,
    pub dlybs: u8,
    pub dlybct: u8,
    pub bits: BitWidth,
}

/// The serial clock divider for a peripheral clock and baud rate (Hz): the
/// quotient rounded up, truncated to 8 bits.
pub open spec fn spec_scbr(pclk: u32, baud: u32) -> u8 {
    ((pclk + baud - 1) / (baud as int)) as u8
}

impl ChipSelectSettings {
    /// Settings for a baud rate (Hz) with the peripheral clock at `pclk` Hz; the
    /// divider must not be zero.
    pub fn new(mode: Mode, csa: ChipSelectActive, bits: BitWidth, baud: u32, dlybs: u8, dlybct: u8, pclk: u32)
        -> (r: ChipSelectSettings)
        requires
            baud > 0,
            pclk + baud <= u32::MAX,
            spec_scbr(pclk, baud) >= 1,
        ensures
            r == (ChipSelectSettings { mode, csa, scbr: spec_scbr(pclk, baud), dlybs, dlybct, bits }),
    {
        let scbr = #[verifier::truncate] (((pclk + baud - 1) / baud) as u8);
        ChipSelectSettings { mode, csa, scbr, dlybs, dlybct, bits }
    }
}

// SPI_MR fields.
/// `MSTR` (bit 0): master mode.
pub const MR_MSTR: u32 = 1 << 0;
/// `PS` (bit 1): variable peripheral select.
pub const MR_PS: u32 = 1 << 1;
/// `PCSDEC` (bit 2): chip select decode.
pub const MR_PCSDEC: u32 = 1 << 2;
/// `MODFDIS` (bit 4): mode fault detection disabled.
pub const MR_MODFDIS: u32 = 1 << 4;
/// `WDRBT` (bit 5): wait data read before transfer.
pub const MR_WDRBT: u32 = 1 << 5;
/// `LLB` (bit 7): local loopback.
pub const MR_LLB: u32 = 1 << 7;

// SPI_SR bits.
pub const SR_RDRF: u32 = 1 << 0;
pub const SR_TDRE: u32 = 1 << 1;
pub const SR_MODF: u32 = 1 << 2;
pub const SR_OVRES: u32 = 1 << 3;
pub const SR_SPIENS: u32 = 1 << 16;

/// `SPI_MR` of a master in the given select mode.
pub open spec fn spec_initial_mr(psm: PeripheralSelectMode, wdrbt: bool, llb: bool, dlybcs: u8, modfdis: bool) -> u32 {
    MR_MSTR
        | (if psm != PeripheralSelectMode::Fixed { MR_PS } else { 0 })
        | (if psm == PeripheralSelectMode::ChipSelectDecode { MR_PCSDEC } else { 0 })
        | (if modfdis { MR_MODFDIS } else { 0 })
        | (if wdrbt { MR_WDRBT } else { 0 })
        | (if llb { MR_LLB } else { 0 })
        | ((dlybcs as u32) << 24u32)
}

/// `SPI_CSRx` for chip select settings.
pub open spec fn spec_csr_value(s: ChipSelectSettings) -> u32 {
    (if s.mode.polarity == Polarity::IdleHigh { 1u32 } else { 0u32 })
        | (if s.mode.phase == Phase::CaptureOnFirstTransition { 2u32 } else { 0u32 })
        | (if s.csa == ChipSelectActive::InactiveAfterEachTransfer { 4u32 } else { 0u32 })
        | (if s.csa == ChipSelectActive::ActiveAfterTransfer { 8u32 } else { 0u32 })
        | (spec_bits_code(s.bits) << 4u32)
        | ((s.scbr as u32) << 8u32)
        | ((s.dlybs as u32) << 16u32)
        | ((s.dlybct as u32) << 24u32)
}

/// The chip select register (0..=3) that chip select `cs` uses, if `cs` is valid: the
/// chip select itself, or with chip select decode its group of four (12..=14 for the
/// last).
pub open spec fn spec_csr_index(pcsdec: bool, cs: u8) -> Option<u8> {
    if pcsdec {
        if cs <= 3 { Some(0u8) }
        else if cs <= 7 { Some(1u8) }
        else if cs <= 11 { Some(2u8) }
        else if cs <= 14 { Some(3u8) }
        else { None }
    } else if cs > 3 {
        None
    } else {
        Some(cs)
    }
}

/// The `PCS` value that selects chip select `cs` (0..=3) without decoding: the
/// selected line's bit and those above it are cleared.
pub open spec fn spec_pcs_id(cs: u8) -> u8 {
    if cs == 0 { 0b0000 }
    else if cs == 1 { 0b0001 }
    else if cs == 2 { 0b0011 }
    else if cs == 3 { 0b0111 }
    else { 0b1111 }
}

/// An SPI master with words of type `FRAMESIZE`.
pub struct SpiMaster<FRAMESIZE> {
    /// `SPI_MR`.
    pub mr: u32,
    /// `SPI_CSR0` to `SPI_CSR3`.
    pub csr: [u32; 4],
    /// Enabled interrupts (`SPI_IMR`).
    pub imr: u32,
    /// The `PCS` value sent with each word in variable mode.
    pub cs: u8,
    /// The `LASTXFER` value sent with the next word in variable mode.
    pub lastxfer: bool,
    pub framesize: PhantomData<FRAMESIZE>,
}

/// The chip select that the `PCS` value read with a word in variable mode stands
/// for: the lowest line driven low.
pub open spec fn spec_variable_pcs_to_cs(pcs: u8) -> Result<u8, Error> {
    if pcs & 0x1 == 0 { Ok(0u8) }
    else if pcs & 0x2 == 0 { Ok(1u8) }
    else if pcs & 0x4 == 0 { Ok(2u8) }
    else if pcs & 0x8 == 0 { Ok(3u8) }
    else { Err(Error::InvalidCs(0xF)) }
}

/// The chip select of a `PCS` value read in variable mode.
pub fn variable_pcs_to_cs(pcs: u8) -> (r: Result<u8, Error>)
    ensures r == spec_variable_pcs_to_cs(pcs),
{
    if (pcs & 0x1) == 0 {
        Ok(0)
    } else if (pcs & 0x2) == 0 {
        Ok(1)
    } else if (pcs & 0x4) == 0 {
        Ok(2)
    } else if (pcs & 0x8) == 0 {
        Ok(3)
    } else {
        Err(Error::InvalidCs(0xF))
    }
}

/// What reading a word does, given `SPI_SR`, `SPI_RDR` and the mode register: an
/// error flag, a disabled SPI or (in variable mode) a word from another chip select
/// is an error; without a received word it would block.
pub open spec fn spec_read(mr: u32, cs: u8, sr: u32, rdr: u32) -> Result<u16, NbError> {
    let rd = (rdr & 0xFFFF) as u16;
    let pcs = ((rdr >> 16u32) & 0x0F) as u8;
    if sr & SR_OVRES != 0 {
        Err(NbError::Other(Error::Overrun))
    } else if sr & SR_MODF != 0 {
        Err(NbError::Other(Error::ModeFault))
    } else if sr & SR_SPIENS == 0 {
        Err(NbError::Other(Error::SpiDisabled))
    } else if sr & SR_RDRF != 0 {
        if mr & MR_PS != 0 {
            match spec_variable_pcs_to_cs(pcs) {
                Err(e) => Err(NbError::Other(e)),
                Ok(c) => if c != cs { Err(NbError::Other(Error::UnexpectedPcs(rd, pcs))) } else { Ok(rd) },
            }
        } else {
            Ok(rd)
        }
    } else {
        Err(NbError::WouldBlock)
    }
}

/// `SPI_TDR` for a word: in fixed mode the data, in variable mode also the chip
/// select (`PCS`, bits 16..=19) and `LASTXFER` (bit 24).
pub open spec fn spec_tdr(mr: u32, cs: u8, lastxfer: bool, data: u16) -> u32 {
    if mr & MR_PS == 0 {
        data as u32
    } else {
        (data as u32) | (((cs as u32) & 0xF) << 16u32) | (if lastxfer { 0x0100_0000u32 } else { 0u32 })
    }
}

/// What sending a word does, given `SPI_SR`: an error flag or a disabled SPI is an
/// error; with the transmit register empty the word (as `SPI_TDR`) is written;
/// otherwise it would block.
pub open spec fn spec_send(mr: u32, cs: u8, lastxfer: bool, sr: u32, data: u16) -> Result<u32, NbError> {
    if sr & SR_OVRES != 0 {
        Err(NbError::Other(Error::Overrun))
    } else if sr & SR_MODF != 0 {
        Err(NbError::Other(Error::ModeFault))
    } else if sr & SR_SPIENS == 0 {
        Err(NbError::Other(Error::SpiDisabled))
    } else if sr & SR_TDRE != 0 {
        Ok(spec_tdr(mr, cs, lastxfer, data))
    } else {
        Err(NbError::WouldBlock)
    }
}

impl<FRAMESIZE> SpiMaster<FRAMESIZE> {
    /// An SPI master in the given peripheral select mode, selecting chip select 0;
    /// the caller disables, resets and enables the SPI, clears its write protection
    /// and writes `mr`.
    pub fn new(psm: PeripheralSelectMode, wdrbt: bool, llb: bool, dlybcs: u8, modfdis: bool) -> (r: Self)
        ensures
            r.mr == spec_initial_mr(psm, wdrbt, llb, dlybcs, modfdis),
            r.csr@ == seq![0u32, 0u32, 0u32, 0u32],
            r.imr == 0,
            r.cs == 0,
            !r.lastxfer,
    {
        let (ps, pcsdec) = match psm {
            PeripheralSelectMode::Fixed => (false, false),
            PeripheralSelectMode::Variable => (true, false),
            PeripheralSelectMode::ChipSelectDecode => (true, true),
        };
        let mr = MR_MSTR
            | (if ps { MR_PS } else { 0 })
            | (if pcsdec { MR_PCSDEC } else { 0 })
            | (if modfdis { MR_MODFDIS } else { 0 })
            | (if wdrbt { MR_WDRBT } else { 0 })
            | (if llb { MR_LLB } else { 0 })
            | ((dlybcs as u32) << 24u32);
        SpiMaster { mr, csr: [0, 0, 0, 0], imr: 0, cs: 0, lastxfer: false, framesize: PhantomData }
    }

    /// Applies settings to chip select `cs`: its register must exist (0..=3, or
    /// 0..=14 with chip select decode, four chip selects per register).
    pub fn cs_setup(&mut self, cs: u8, settings: ChipSelectSettings) -> (r: Result<(), Error>)
        ensures
            match spec_csr_index(old(self).mr & MR_PCSDEC != 0, cs) {
                None => r == Err::<(), Error>(Error::InvalidCs(cs)) && final(self).csr == old(self).csr,
                Some(i) => r is Ok && final(self).csr@ == old(self).csr@.update(i as int, spec_csr_value(settings)),
            },
            final(self).mr == old(self).mr,
            final(self).cs == old(self).cs,
            final(self).lastxfer == old(self).lastxfer,
            final(self).imr == old(self).imr,
    {
        let index: u8 = if self.mr & MR_PCSDEC != 0 {
            if cs <= 3 {
                0
            } else if cs <= 7 {
                1
            } else if cs <= 11 {
                2
            } else if cs <= 14 {
                3
            } else {
                return Err(Error::InvalidCs(cs));
            }
        } else if cs > 3 {
            return Err(Error::InvalidCs(cs));
        } else {
            cs
        };
        let cpol = match settings.mode.polarity {
            Polarity::IdleLow => false,
            Polarity::IdleHigh => true,
        };
        let ncpha = match settings.mode.phase {
            Phase::CaptureOnFirstTransition => true,
            Phase::CaptureOnSecondTransition => false,
        };
        let (csaat, csnaat) = match settings.csa {
            ChipSelectActive::ActiveAfterTransfer => (true, false),
            ChipSelectActive::ActiveOnConsecutiveTransfers => (false, false),
            ChipSelectActive::InactiveAfterEachTransfer => (false, true),
        };
        let bits: u32 = match settings.bits {
            BitWidth::Width8Bit => 0,
            BitWidth::Width9Bit => 1,
            BitWidth::Width10Bit => 2,
            BitWidth::Width11Bit => 3,
            BitWidth::Width12Bit => 4,
            BitWidth::Width13Bit => 5,
            BitWidth::Width14Bit => 6,
            BitWidth::Width15Bit => 7,
            BitWidth::Width16Bit => 8,
        };
        let value = (if cpol { 1u32 } else { 0u32 })
            | (if ncpha { 2u32 } else { 0u32 })
            | (if csnaat { 4u32 } else { 0u32 })
            | (if csaat { 8u32 } else { 0u32 })
            | (bits << 4u32)
            | ((settings.scbr as u32) << 8u32)
            | ((settings.dlybs as u32) << 16u32)
            | ((settings.dlybct as u32) << 24u32);
        self.csr[index as usize] = value;
        Ok(())
    }

    /// Selects chip select `cs` for the following reads and writes: in fixed mode the
    /// `PCS` field of the mode register is set (an invalid `cs` selecting no line);
    /// in variable mode the `PCS` value sent with each word is kept (the chip select
    /// itself with decoding, below 16; else its select pattern, below 4).
    pub fn cs_select(&mut self, cs: u8) -> (r: Result<(), Error>)
        ensures
            final(self).csr == old(self).csr,
            final(self).lastxfer == old(self).lastxfer,
            final(self).imr == old(self).imr,
            old(self).mr & MR_PS == 0 ==> {
                &&& r is Ok
                &&& final(self).mr == (old(self).mr & !0x000F_0000u32) | (((spec_pcs_id(cs) as u32) & 0xF) << 16u32)
                &&& final(self).cs == old(self).cs
            },
            old(self).mr & MR_PS != 0 ==> {
                &&& final(self).mr == old(self).mr
                &&& if old(self).mr & MR_PCSDEC != 0 {
                    if cs > 15 {
                        r == Err::<(), Error>(Error::InvalidCs(cs)) && final(self).cs == old(self).cs
                    } else {
                        r is Ok && final(self).cs == cs
                    }
                } else if cs > 3 {
                    r == Err::<(), Error>(Error::InvalidCs(cs)) && final(self).cs == old(self).cs
                } else {
                    r is Ok && final(self).cs == spec_pcs_id(cs)
                }
            },
    {
        let pcs_id: u8 = if cs == 0 {
            0b0000
        } else if cs == 1 {
            0b0001
        } else if cs == 2 {
            0b0011
        } else if cs == 3 {
            0b0111
        } else {
            0b1111
        };
        if self.mr & MR_PS == 0 {
            self.mr = (self.mr & !0x000F_0000u32) | (((pcs_id as u32) & 0xF) << 16u32);
        } else if self.mr & MR_PCSDEC != 0 {
            if cs > 15 {
                return Err(Error::InvalidCs(cs));
            }
            self.cs = cs;
        } else {
            if cs > 3 {
                return Err(Error::InvalidCs(cs));
            }
            self.cs = pcs_id;
        }
        Ok(())
    }

    /// Ends the transfer after the next word: in fixed mode the caller writes
    /// `LASTXFER` to `SPI_CR` (returns true); in variable mode it is sent with the
    /// next word.
    pub fn lastxfer(&mut self, lastxfer: bool) -> (r: bool)
        ensures
            r == (old(self).mr & MR_PS == 0),
            final(self).lastxfer == (if r { old(self).lastxfer } else { lastxfer }),
            final(self).mr == old(self).mr,
            final(self).csr == old(self).csr,
            final(self).cs == old(self).cs,
            final(self).imr == old(self).imr,
    {
        if self.mr & MR_PS == 0 {
            true
        } else {
            self.lastxfer = lastxfer;
            false
        }
    }

    /// Enables the receive data register full interrupt (not with the PDC).
    pub fn enable_rdrf_interrupt(&mut self)
        ensures final(self).imr == old(self).imr | SR_RDRF, final(self).mr == old(self).mr,
            final(self).cs == old(self).cs, final(self).lastxfer == old(self).lastxfer,
    {
        self.imr = self.imr | SR_RDRF;
    }

    /// Disables the receive data register full interrupt.
    pub fn disable_rdrf_interrupt(&mut self)
        ensures final(self).imr == old(self).imr & !SR_RDRF, final(self).mr == old(self).mr,
            final(self).cs == old(self).cs, final(self).lastxfer == old(self).lastxfer,
    {
        self.imr = self.imr & !SR_RDRF;
    }

    /// Enables the transmit data register empty interrupt (not with the PDC).
    pub fn enable_tdre_interrupt(&mut self)
        ensures final(self).imr == old(self).imr | SR_TDRE, final(self).mr == old(self).mr,
            final(self).cs == old(self).cs, final(self).lastxfer == old(self).lastxfer,
    {
        self.imr = self.imr | SR_TDRE;
    }

    /// Disables the transmit data register empty interrupt.
    pub fn disable_tdre_interrupt(&mut self)
        ensures final(self).imr == old(self).imr & !SR_TDRE, final(self).mr == old(self).mr,
            final(self).cs == old(self).cs, final(self).lastxfer == old(self).lastxfer,
    {
        self.imr = self.imr & !SR_TDRE;
    }

    /// Enables the mode fault interrupt.
    pub fn enable_modf_interrupt(&mut self)
        ensures final(self).imr == old(self).imr | SR_MODF, final(self).mr == old(self).mr,
            final(self).cs == old(self).cs, final(self).lastxfer == old(self).lastxfer,
    {
        self.imr = self.imr | SR_MODF;
    }

    /// Disables the mode fault interrupt.
    pub fn disable_modf_interrupt(&mut self)
        ensures final(self).imr == old(self).imr & !SR_MODF, final(self).mr == old(self).mr,
            final(self).cs == old(self).cs, final(self).lastxfer == old(self).lastxfer,
    {
        self.imr = self.imr & !SR_MODF;
    }

    /// Enables the overrun interrupt.
    pub fn enable_ovres_interrupt(&mut self)
        ensures final(self).imr == old(self).imr | SR_OVRES, final(self).mr == old(self).mr,
            final(self).cs == old(self).cs, final(self).lastxfer == old(self).lastxfer,
    {
        self.imr = self.imr | SR_OVRES;
    }

    /// Disables the overrun interrupt.
    pub fn disable_ovres_interrupt(&mut self)
        ensures final(self).imr == old(self).imr & !SR_OVRES, final(self).mr == old(self).mr,
            final(self).cs == old(self).cs, final(self).lastxfer == old(self).lastxfer,
    {
        self.imr = self.imr & !SR_OVRES;
    }

    /// Reads a word, given `SPI_SR` and `SPI_RDR`.
    pub fn read(&self, sr: u32, rdr: u32) -> (r: Result<SpiU16, NbError>)
        ensures
            r == (match spec_read(self.mr, self.cs, sr, rdr) {
                Ok(v) => Ok::<SpiU16, NbError>(SpiU16(v)),
                Err(e) => Err(e),
            }),
    {
        let masked = rdr & 0xFFFF;
        let pcs_bits = (rdr >> 16u32) & 0x0F;
        proof {
            assert(masked <= 0xFFFF && pcs_bits <= 0xF) by (bit_vector)
                requires masked == rdr & 0xFFFF, pcs_bits == (rdr >> 16u32) & 0x0F;
        }
        let rd = masked as u16;
        let pcs = pcs_bits as u8;
        if sr & SR_OVRES != 0 {
            Err(NbError::Other(Error::Overrun))
        } else if sr & SR_MODF != 0 {
            Err(NbError::Other(Error::ModeFault))
        } else if sr & SR_SPIENS == 0 {
            Err(NbError::Other(Error::SpiDisabled))
        } else if sr & SR_RDRF != 0 {
            if self.mr & MR_PS != 0 {
                match variable_pcs_to_cs(pcs) {
                    Err(e) => Err(NbError::Other(e)),
                    Ok(c) => if c != self.cs {
                        Err(NbError::Other(Error::UnexpectedPcs(rd, pcs)))
                    } else {
                        Ok(SpiU16(rd))
                    },
                }
            } else {
                Ok(SpiU16(rd))
            }
        } else {
            Err(NbError::WouldBlock)
        }
    }

    /// Sends a word, given `SPI_SR`: the `SPI_TDR` value to write.
    pub fn send(&self, sr: u32, data: SpiU16) -> (r: Result<u32, NbError>)
        ensures r == spec_send(self.mr, self.cs, self.lastxfer, sr, data.0),
    {
        if sr & SR_OVRES != 0 {
            Err(NbError::Other(Error::Overrun))
        } else if sr & SR_MODF != 0 {
            Err(NbError::Other(Error::ModeFault))
        } else if sr & SR_SPIENS == 0 {
            Err(NbError::Other(Error::SpiDisabled))
        } else if sr & SR_TDRE != 0 {
            if self.mr & MR_PS == 0 {
                Ok(self.write_fixed_data_reg(data))
            } else {
                Ok(self.write_variable_data_reg(data))
            }
        } else {
            Err(NbError::WouldBlock)
        }
    }
}

impl<FRAMESIZE> SpiMaster<FRAMESIZE> {
    /// One poll while writing `word` of a sequence of words, given `SPI_SR`: when the
    /// transmit data register is empty (`TDRE`), the `SPI_TDR` value to write (as
    /// fixed or variable peripheral select has it, by `MR.PS`), and, if a mode fault
    /// is flagged too, the `ModeFault` that ends the sequence; nothing while the
    /// register is full.
    pub fn spi_write_step(&self, sr: u32, word: SpiU16) -> (r: (Option<u32>, Option<Error>))
        ensures
            r == (if sr & SR_TDRE != 0 {
                (
                    Some(if self.mr & MR_PS == 0 {
                        word.0 as u32
                    } else {
                        (word.0 as u32) | (((self.cs as u32) & 0xF) << 16u32)
                            | (if self.lastxfer { 0x0100_0000u32 } else { 0u32 })
                    }),
                    if sr & SR_MODF != 0 { Some(Error::ModeFault) } else { None::<Error> },
                )
            } else {
                (None::<u32>, None::<Error>)
            }),
    {
        if sr & SR_TDRE != 0 {
            let tdr = if self.mr & MR_PS == 0 {
                self.write_fixed_data_reg(word)
            } else {
                self.write_variable_data_reg(word)
            };
            let fault = if sr & SR_MODF != 0 { Some(Error::ModeFault) } else { None };
            (Some(tdr), fault)
        } else {
            (None, None)
        }
    }
}

/// Data register access of an SPI master with words of type `T`.
pub trait SpiReadWrite<T> {
    /// The word in a `SPI_RDR` value.
    fn read_data_reg(&self, rdr: u32) -> T;
    /// The `SPI_TDR` value of a word in fixed mode.
    fn write_fixed_data_reg(&self, data: T) -> u32;
    /// The `SPI_TDR` value of a word in variable mode.
    fn write_variable_data_reg(&self, data: T) -> u32;
}

impl<FRAMESIZE> SpiReadWrite<SpiU16> for SpiMaster<FRAMESIZE> {
    fn read_data_reg(&self, rdr: u32) -> (r: SpiU16)
        ensures r.0 == rdr & 0xFFFF,
    {
        let masked = rdr & 0xFFFF;
        proof {
            assert(masked <= 0xFFFF) by (bit_vector)
                requires masked == rdr & 0xFFFF;
        }
        SpiU16(masked as u16)
    }

    fn write_fixed_data_reg(&self, data: SpiU16) -> (r: u32)
        ensures r == data.0 as u32,
    {
        data.0 as u32
    }

    fn write_variable_data_reg(&self, data: SpiU16) -> (r: u32)
        ensures
            r == (data.0 as u32) | (((self.cs as u32) & 0xF) << 16u32)
                | (if self.lastxfer { 0x0100_0000u32 } else { 0u32 }),
    {
        (data.0 as u32) | (((self.cs as u32) & 0xF) << 16u32) | (if self.lastxfer { 0x0100_0000u32 } else { 0u32 })
    }
}

/// PDC mode: fixed peripheral select, 8 or 16 bit words.
pub struct Fixed;

/// PDC mode: variable peripheral select, 32 bit words holding data, chip select
/// and `LASTXFER`.
pub struct Variable;

/// The SPI master as a PDC peripheral in mode `MODE`.
pub struct SpiPayload<MODE, FRAMESIZE> {
    pub spi: SpiMaster<FRAMESIZE>,
    pub mode: PhantomData<MODE>,
}

impl<FRAMESIZE> SpiMaster<FRAMESIZE> {
    /// The SPI receiving through the PDC.
    pub fn with_pdc_rx<MODE>(self) -> (r: RxDma<SpiPayload<MODE, FRAMESIZE>>)
        ensures r.payload.spi == self,
    {
        RxDma { payload: SpiPayload { spi: self, mode: PhantomData } }
    }

    /// The SPI transmitting through the PDC.
    pub fn with_pdc_tx<MODE>(self) -> (r: TxDma<SpiPayload<MODE, FRAMESIZE>>)
        ensures r.payload.spi == self,
    {
        TxDma { payload: SpiPayload { spi: self, mode: PhantomData } }
    }

    /// The SPI receiving and transmitting through the PDC.
    pub fn with_pdc_rxtx<MODE>(self) -> (r: RxTxDma<SpiPayload<MODE, FRAMESIZE>>)
        ensures r.payload.spi == self,
    {
        RxTxDma { payload: SpiPayload { spi: self, mode: PhantomData } }
    }
}

} // verus!

verus! {

/// The levels of the four chip select lines (`PCS`) while chip select `cs` (0..=3)
/// is active without decoding: its line low, the others high.
pub open spec fn spec_line_pattern(cs: u8) -> u8 {
    if cs == 0 { 0xE } else if cs == 1 { 0xD } else if cs == 2 { 0xB } else { 0x7 }
}

proof fn lemma_received_word_fields(rd: u16, pattern: u32)
    by (bit_vector)
    requires
        pattern <= 0xF,
    ensures
        (((rd as u32) | (pattern << 16u32)) & 0xFFFF) == rd as u32,
        ((((rd as u32) | (pattern << 16u32)) >> 16u32) & 0x0F) == pattern,
        0xEu8 & 0x1 == 0,
        0xDu8 & 0x1 != 0,
        0xDu8 & 0x2 == 0,
{
}

/// In variable peripheral select mode without decoding, a word received from the
/// chip select chosen with `cs_select` is accepted when that chip select is 0 or
/// 1: reading gives its data.
pub proof fn lemma_word_from_selected_chip_accepted(mr: u32, cs: u8, sr: u32, rd: u16)
    requires
        mr & MR_PS != 0,
        cs <= 1,
        sr & SR_OVRES == 0,
        sr & SR_MODF == 0,
        sr & SR_SPIENS != 0,
        sr & SR_RDRF != 0,
    ensures
        spec_read(mr, spec_pcs_id(cs), sr, (rd as u32) | ((spec_line_pattern(cs) as u32) << 16u32))
            == Ok::<u16, NbError>(rd),
{
    lemma_received_word_fields(rd, spec_line_pattern(cs) as u32);
}

} // verus!
