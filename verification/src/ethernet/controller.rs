//! Register values of the GMAC Ethernet controller: the network configuration for
//! a master clock and a negotiated link, the PHY management frames, the MAC address
//! registers, the interrupt and DMA settings.
use vstd::prelude::*;
use super::eui48::Identifier;
use super::phy::{LinkType, Register, spec_register_address};
use super::builder::Builder;

verus! {

// GMAC_NCFGR fields.
/// `SPD` (bit 0): 100 Mbit/s.
pub const NCFGR_SPD: u32 = 1 << 0;
/// `FD` (bit 1): full duplex.
pub const NCFGR_FD: u32 = 1 << 1;
/// `CAF` (bit 4): copy all frames.
pub const NCFGR_CAF: u32 = 1 << 4;
/// `MAXFS` (bit 8): frames up to 1536 bytes.
pub const NCFGR_MAXFS: u32 = 1 << 8;
/// `PEN` (bit 13): pause on received pause frames.
pub const NCFGR_PEN: u32 = 1 << 13;
/// `RXCOEN` (bit 24): receive checksum offload.
pub const NCFGR_RXCOEN: u32 = 1 << 24;

/// The management data clock divider code (`NCFGR.CLK`, bits 18..=20) for a master
/// clock frequency in Hz up to 240 MHz: MCK/96 above 160 MHz, /64 above 120 MHz, /48
/// above 80 MHz, /32 above 40 MHz, /16 above 20 MHz, else /8.
pub open spec fn spec_mdc_clock_code(mck: u32) -> u32 {
    if mck > 160_000_000 {
        5
    } else if mck > 120_000_000 {
        4
    } else if mck > 80_000_000 {
        3
    } else if mck > 40_000_000 {
        2
    } else if mck > 20_000_000 {
        1
    } else {
        0
    }
}

/// The management data clock divider code for a master clock of at most 240 MHz.
pub fn mdc_clock_code(mck: u32) -> (r: u32)
    requires
        mck <= 240_000_000,
    ensures
        r == spec_mdc_clock_code(mck),
{
    if mck > 160_000_000 {
        5
    } else if mck > 120_000_000 {
        4
    } else if mck > 80_000_000 {
        3
    } else if mck > 40_000_000 {
        2
    } else if mck > 20_000_000 {
        1
    } else {
        0
    }
}

/// `GMAC_NCFGR` after setup: all frames copied, receive checksum offload, 1536 byte
/// frames, pause enabled and the management clock divider for the master clock, the
/// other bits as before.
pub open spec fn spec_configured_ncfgr(ncfgr: u32, mck: u32) -> u32 {
    (ncfgr & !(7u32 << 18u32)) | NCFGR_CAF | NCFGR_RXCOEN | NCFGR_MAXFS | NCFGR_PEN
        | (spec_mdc_clock_code(mck) << 18u32)
}

/// The network configuration register value for a master clock of at most 240 MHz.
pub fn configured_ncfgr(ncfgr: u32, mck: u32) -> (r: u32)
    requires
        mck <= 240_000_000,
    ensures
        r == spec_configured_ncfgr(ncfgr, mck),
{
    let clk = mdc_clock_code(mck);
    (ncfgr & !(7u32 << 18u32)) | NCFGR_CAF | NCFGR_RXCOEN | NCFGR_MAXFS | NCFGR_PEN | (clk << 18u32)
}

/// `GMAC_NCFGR` with speed and duplex set to those of the negotiated link.
pub open spec fn spec_ncfgr_for_link(ncfgr: u32, link: LinkType) -> u32 {
    match link {
        LinkType::HalfDuplex10 => ncfgr & !NCFGR_SPD & !NCFGR_FD,
        LinkType::FullDuplex10 => (ncfgr & !NCFGR_SPD) | NCFGR_FD,
        LinkType::HalfDuplex100 => (ncfgr | NCFGR_SPD) & !NCFGR_FD,
        LinkType::FullDuplex100 => ncfgr | NCFGR_SPD | NCFGR_FD,
    }
}

/// The network configuration register value for a negotiated link.
pub fn ncfgr_for_link(ncfgr: u32, link: LinkType) -> (r: u32)
    ensures
        r == spec_ncfgr_for_link(ncfgr, link),
{
    match link {
        LinkType::HalfDuplex10 => ncfgr & !NCFGR_SPD & !NCFGR_FD,
        LinkType::FullDuplex10 => (ncfgr & !NCFGR_SPD) | NCFGR_FD,
        LinkType::HalfDuplex100 => (ncfgr | NCFGR_SPD) & !NCFGR_FD,
        LinkType::FullDuplex100 => ncfgr | NCFGR_SPD | NCFGR_FD,
    }
}

/// `GMAC_MAN` operation codes.
pub const MAN_OP_WRITE: u32 = 0b01;
pub const MAN_OP_READ: u32 = 0b10;

/// A `GMAC_MAN` management frame: data (bits 0..=15), `WTN` 0b10 (bits 16..=17), the
/// register (bits 18..=22), the PHY address (bits 23..=27), the operation (bits
/// 28..=29), `CLTTO` set (bit 30) and `WZO` clear (bit 31).
pub open spec fn spec_man_frame(data: u16, register: u8, phy_address: u8, op: u32) -> u32 {
    (data as u32) | (0b10u32 << 16u32) | (((register as u32) & 0x1F) << 18u32)
        | (((phy_address as u32) & 0x1F) << 23u32) | ((op & 0x3) << 28u32) | (1u32 << 30u32)
}

/// The management frame that reads `register` of the PHY at `phy_address`.
pub fn phy_read_frame(register: Register, phy_address: u8) -> (r: u32)
    ensures r == spec_man_frame(0, spec_register_address(register), phy_address, MAN_OP_READ),
{
    let rega = register.address();
    (0u16 as u32) | (0b10u32 << 16u32) | (((rega as u32) & 0x1F) << 18u32)
        | (((phy_address as u32) & 0x1F) << 23u32) | ((MAN_OP_READ & 0x3) << 28u32) | (1u32 << 30u32)
}

/// The management frame that writes `value` to `register` of the PHY at
/// `phy_address`.
pub fn phy_write_frame(register: Register, phy_address: u8, value: u16) -> (r: u32)
    ensures r == spec_man_frame(value, spec_register_address(register), phy_address, MAN_OP_WRITE),
{
    let rega = register.address();
    (value as u32) | (0b10u32 << 16u32) | (((rega as u32) & 0x1F) << 18u32)
        | (((phy_address as u32) & 0x1F) << 23u32) | ((MAN_OP_WRITE & 0x3) << 28u32) | (1u32 << 30u32)
}

/// The data bits (0..=15) of `GMAC_MAN` after a read.
pub fn phy_read_data(man: u32) -> (r: u16)
    ensures r == man & 0xFFFF,
{
    let v = man & 0xFFFF;
    proof {
        assert(v <= 0xFFFF) by (bit_vector)
            requires v == man & 0xFFFF;
    }
    v as u16
}

/// The bottom (`GMAC_SABx`) and top (`GMAC_SATx`) words of a specific address
/// register pair for a MAC address: bytes 0..=3 and bytes 4..=5, least significant
/// first. Writing the top word enables the address.
pub open spec fn spec_address_registers(bytes: [u8; 6]) -> (u32, u32) {
    ((bytes[0] as u32) | ((bytes[1] as u32) << 8u32) | ((bytes[2] as u32) << 16u32) | ((bytes[3] as u32) << 24u32),
        (bytes[4] as u32) | ((bytes[5] as u32) << 8u32))
}

/// The specific address register words for a MAC address.
pub fn address_registers(address: &Identifier) -> (r: (u32, u32))
    ensures r == spec_address_registers(address.0),
{
    let bytes = address.as_bytes();
    ((bytes[0] as u32) | ((bytes[1] as u32) << 8u32) | ((bytes[2] as u32) << 16u32) | ((bytes[3] as u32) << 24u32),
        (bytes[4] as u32) | ((bytes[5] as u32) << 8u32))
}

/// The specific address register pair (1..=4) that holds alternate address `index`
/// (0..=2); pair 1 holds the main address.
pub fn alternate_address_register(index: usize) -> (r: u8)
    requires
        index < 3,
    ensures
        r == index + 2,
{
    match index {
        0 => 2,
        1 => 3,
        _ => 4,
    }
}

/// `GMAC_IDR` value that disables every interrupt source: bits 0..=7, 10..=15,
/// 18..=26 and 28.
pub const ALL_INTERRUPTS: u32 = 0x17FC_FCFF;

/// The interrupt disable register value that disables all interrupts.
pub fn disable_all_interrupts() -> (r: u32)
    ensures r == ALL_INTERRUPTS,
{
    ALL_INTERRUPTS
}

/// `GMAC_RSR` value that clears its four status bits (BNA, REC, RXOVR, HNO).
pub const RSR_CLEAR_ALL: u32 = 0x0000_000F;

/// `GMAC_TSR` value that clears its status bits (UBR, COL, RLE, TXGO, TFC, TXCOMP,
/// UND in bits 0..=6, HRESP in bit 8).
pub const TSR_CLEAR_ALL: u32 = 0x0000_017F;

/// `GMAC_DCFGR` with fixed bursts of 4 (`FBLDO` 4), no endianness swap for
/// management and packet data, and 1536 byte receive buffers (`DRBS` 0x18), the
/// other bits kept.
pub open spec fn spec_dcfgr(dcfgr: u32) -> u32 {
    (dcfgr & !0x00FF_00DFu32) | 0x04u32 | (0x18u32 << 16u32)
}

/// The DMA configuration register value.
pub fn configured_dcfgr(dcfgr: u32) -> (r: u32)
    ensures r == spec_dcfgr(dcfgr),
{
    (dcfgr & !0x00FF_00DFu32) | 0x04u32 | (0x18u32 << 16u32)
}

// GMAC_NCR fields.
/// `RXEN` (bit 2).
pub const NCR_RXEN: u32 = 1 << 2;
/// `TXEN` (bit 3).
pub const NCR_TXEN: u32 = 1 << 3;
/// `MPE` (bit 4): management port enable.
pub const NCR_MPE: u32 = 1 << 4;
/// `CLRSTAT` (bit 5).
pub const NCR_CLRSTAT: u32 = 1 << 5;
/// `TSTART` (bit 9): start transmission.
pub const NCR_TSTART: u32 = 1 << 9;

/// `GMAC_NCR` with receive and transmit enabled.
pub fn ncr_enable_receive_and_transmit(ncr: u32) -> (r: u32)
    ensures r == ncr | NCR_RXEN | NCR_TXEN,
{
    ncr | NCR_RXEN | NCR_TXEN
}

/// `GMAC_NCR` with receive and transmit disabled.
pub fn ncr_disable_receive_and_transmit(ncr: u32) -> (r: u32)
    ensures r == ncr & !NCR_RXEN & !NCR_TXEN,
{
    ncr & !NCR_RXEN & !NCR_TXEN
}

/// `GMAC_UR` with `MII` (bit 0) set.
pub fn ur_with_mii(ur: u32) -> (r: u32)
    ensures r == ur | 1,
{
    ur | 1
}


/// The GMAC registers that the bring-up and the reset write.
#[derive(Clone, Copy, Debug, PartialEq, Eq, Structural)]
pub enum GmacRegister {
    Ncr,
    Ncfgr,
    Ur,
    Dcfgr,
    Idr,
    Rsr,
    Tsr,
    Rbqb,
    Tbqb,
    /// `GMAC_SABx` of specific address pair `x` (1..=4).
    Sab(u8),
    /// `GMAC_SATx` of specific address pair `x` (1..=4).
    Sat(u8),
}

/// A register access of the GMAC bring-up, carried out in order by the caller.
#[derive(Clone, Copy, Debug, PartialEq, Eq, Structural)]
pub enum GmacStep {
    /// Sets a register to its reset value.
    Reset(GmacRegister),
    /// Writes a value.
    Write(GmacRegister, u32),
    /// Reads the register, clears the bits of `clear`, sets those of `set` and
    /// writes it back.
    Modify { register: GmacRegister, clear: u32, set: u32 },
    /// Reads the interrupt status register, which clears it.
    ReadIsr,
}

/// The steps that reset the controller: the network control register reset, every
/// interrupt disabled, the statistics cleared, the receive and transmit status
/// cleared, the interrupt status read, the configuration reset, and receive and
/// transmit disabled.
pub open spec fn spec_reset_steps() -> Seq<GmacStep> {
    seq![
        GmacStep::Reset(GmacRegister::Ncr),
        GmacStep::Write(GmacRegister::Idr, ALL_INTERRUPTS),
        GmacStep::Modify { register: GmacRegister::Ncr, clear: 0, set: NCR_CLRSTAT },
        GmacStep::Write(GmacRegister::Rsr, RSR_CLEAR_ALL),
        GmacStep::Write(GmacRegister::Tsr, TSR_CLEAR_ALL),
        GmacStep::ReadIsr,
        GmacStep::Reset(GmacRegister::Ncfgr),
        GmacStep::Modify { register: GmacRegister::Ncr, clear: NCR_RXEN, set: 0 },
        GmacStep::Modify { register: GmacRegister::Ncr, clear: NCR_TXEN, set: 0 },
    ]
}

/// The steps that reset the controller (receive and transmit left disabled).
pub fn reset_steps() -> (r: Vec<GmacStep>)
    ensures r@ == spec_reset_steps(),
{
    let mut v: Vec<GmacStep> = Vec::new();
    v.push(GmacStep::Reset(GmacRegister::Ncr));
    v.push(GmacStep::Write(GmacRegister::Idr, disable_all_interrupts()));
    v.push(GmacStep::Modify { register: GmacRegister::Ncr, clear: 0, set: NCR_CLRSTAT });
    v.push(GmacStep::Write(GmacRegister::Rsr, RSR_CLEAR_ALL));
    v.push(GmacStep::Write(GmacRegister::Tsr, TSR_CLEAR_ALL));
    v.push(GmacStep::ReadIsr);
    v.push(GmacStep::Reset(GmacRegister::Ncfgr));
    v.push(GmacStep::Modify { register: GmacRegister::Ncr, clear: NCR_RXEN, set: 0 });
    v.push(GmacStep::Modify { register: GmacRegister::Ncr, clear: NCR_TXEN, set: 0 });
    assert(v@ =~= spec_reset_steps());
    v
}

/// The step that configures the network for a master clock of `mck` Hz: copy all
/// frames, receive checksum offload, 1536 byte frames, pause, and the management
/// clock divider.
pub open spec fn spec_configure_step(mck: u32) -> GmacStep {
    GmacStep::Modify {
        register: GmacRegister::Ncfgr,
        clear: 7u32 << 18u32,
        set: NCFGR_CAF | NCFGR_RXCOEN | NCFGR_MAXFS | NCFGR_PEN | (spec_mdc_clock_code(mck) << 18u32),
    }
}

/// The configuration step for a master clock of at most 240 MHz (above that the
/// management clock cannot be divided down).
pub fn configure_step(mck: u32) -> (r: GmacStep)
    requires
        mck <= 240_000_000,
    ensures
        r == spec_configure_step(mck),
{
    let clk = mdc_clock_code(mck);
    GmacStep::Modify {
        register: GmacRegister::Ncfgr,
        clear: 7u32 << 18u32,
        set: NCFGR_CAF | NCFGR_RXCOEN | NCFGR_MAXFS | NCFGR_PEN | (clk << 18u32),
    }
}

/// The step that sets speed and duplex for a negotiated link.
pub open spec fn spec_link_step(link: LinkType) -> GmacStep {
    match link {
        LinkType::HalfDuplex10 => GmacStep::Modify { register: GmacRegister::Ncfgr, clear: NCFGR_SPD | NCFGR_FD, set: 0 },
        LinkType::FullDuplex10 => GmacStep::Modify { register: GmacRegister::Ncfgr, clear: NCFGR_SPD, set: NCFGR_FD },
        LinkType::HalfDuplex100 => GmacStep::Modify { register: GmacRegister::Ncfgr, clear: NCFGR_FD, set: NCFGR_SPD },
        LinkType::FullDuplex100 => GmacStep::Modify { register: GmacRegister::Ncfgr, clear: 0, set: NCFGR_SPD | NCFGR_FD },
    }
}

/// The writes that put a MAC address into specific address pair `pair`: bottom
/// word, then top word (which enables it).
pub open spec fn spec_address_steps(pair: u8, address: Identifier) -> Seq<GmacStep> {
    seq![
        GmacStep::Write(GmacRegister::Sab(pair), spec_address_registers(address.0).0),
        GmacStep::Write(GmacRegister::Sat(pair), spec_address_registers(address.0).1),
    ]
}

/// The address writes of the alternate addresses before `n`, each in the pair
/// after the one before.
pub open spec fn spec_alternate_steps(alternates: Seq<Identifier>, n: int) -> Seq<GmacStep>
    decreases n,
{
    if n <= 0 {
        Seq::empty()
    } else {
        spec_alternate_steps(alternates, n - 1) + spec_address_steps((n + 1) as u8, alternates[n - 1])
    }
}

/// The steps after the link is negotiated: speed and duplex, MII mode, the MAC
/// address in pair 1 and the alternate addresses in pairs 2..=4, the descriptor
/// queue base addresses, the DMA configuration, then receive and transmit enabled.
pub open spec fn spec_link_up_steps(link: LinkType, config: super::builder::BuilderModel, rx_base: u32, tx_base: u32)
    -> Seq<GmacStep>
{
    seq![spec_link_step(link), GmacStep::Modify { register: GmacRegister::Ur, clear: 0, set: 1 }]
        + spec_address_steps(1, config.ethernet_address)
        + spec_alternate_steps(config.alternate_addresses, config.alternate_addresses.len() as int)
        + seq![
            GmacStep::Write(GmacRegister::Rbqb, rx_base),
            GmacStep::Write(GmacRegister::Tbqb, tx_base),
            GmacStep::Modify { register: GmacRegister::Dcfgr, clear: 0x00FF_00DF, set: 0x04u32 | (0x18u32 << 16u32) },
            GmacStep::Modify { register: GmacRegister::Ncr, clear: 0, set: NCR_RXEN },
            GmacStep::Modify { register: GmacRegister::Ncr, clear: 0, set: NCR_TXEN },
        ]
}

/// Appends the writes of a MAC address into a specific address pair.
fn push_address_steps(v: &mut Vec<GmacStep>, pair: u8, address: &Identifier)
    ensures final(v)@ == old(v)@ + spec_address_steps(pair, *address),
{
    let (bottom, top) = address_registers(address);
    v.push(GmacStep::Write(GmacRegister::Sab(pair), bottom));
    v.push(GmacStep::Write(GmacRegister::Sat(pair), top));
    assert(v@ =~= old(v)@ + spec_address_steps(pair, *address));
}

/// The steps that finish the bring-up once the PHY has negotiated `link`, for the
/// addresses of `builder` and the descriptor tables at `rx_base` and `tx_base`.
pub fn link_up_steps(link: LinkType, builder: &Builder, rx_base: u32, tx_base: u32) -> (r: Vec<GmacStep>)
    requires
        builder.wf(),
    ensures
        r@ == spec_link_up_steps(link, builder@, rx_base, tx_base),
{
    let mut v: Vec<GmacStep> = Vec::new();
    let link_step = match link {
        LinkType::HalfDuplex10 => GmacStep::Modify { register: GmacRegister::Ncfgr, clear: NCFGR_SPD | NCFGR_FD, set: 0 },
        LinkType::FullDuplex10 => GmacStep::Modify { register: GmacRegister::Ncfgr, clear: NCFGR_SPD, set: NCFGR_FD },
        LinkType::HalfDuplex100 => GmacStep::Modify { register: GmacRegister::Ncfgr, clear: NCFGR_FD, set: NCFGR_SPD },
        LinkType::FullDuplex100 => GmacStep::Modify { register: GmacRegister::Ncfgr, clear: 0, set: NCFGR_SPD | NCFGR_FD },
    };
    v.push(link_step);
    v.push(GmacStep::Modify { register: GmacRegister::Ur, clear: 0, set: 1 });
    let main_address = builder.ethernet_address();
    push_address_steps(&mut v, 1, &main_address);
    let ghost prefix = v@;
    let count = builder.alternate_ethernet_address_count();
    let mut index: usize = 0;
    while index < count
        invariant
            builder.wf(),
            count == builder@.alternate_addresses.len(),
            count <= 3,
            index <= count,
            v@ == prefix + spec_alternate_steps(builder@.alternate_addresses, index as int),
        decreases count - index,
    {
        let alternate = builder.alternate_ethernet_address(index);
        let pair = alternate_address_register(index);
        push_address_steps(&mut v, pair, &alternate);
        index = index + 1;
        assert(v@ =~= prefix + spec_alternate_steps(builder@.alternate_addresses, index as int));
    }
    v.push(GmacStep::Write(GmacRegister::Rbqb, rx_base));
    v.push(GmacStep::Write(GmacRegister::Tbqb, tx_base));
    v.push(GmacStep::Modify { register: GmacRegister::Dcfgr, clear: 0x00FF_00DF, set: 0x04u32 | (0x18u32 << 16u32) });
    v.push(GmacStep::Modify { register: GmacRegister::Ncr, clear: 0, set: NCR_RXEN });
    v.push(GmacStep::Modify { register: GmacRegister::Ncr, clear: 0, set: NCR_TXEN });
    assert(v@ =~= spec_link_up_steps(link, builder@, rx_base, tx_base));
    v
}

} // verus!
