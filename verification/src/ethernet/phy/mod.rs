//! Registers of the Ethernet PHY on the management bus: the Basic Mode Control
//! Register (BMCR) and Basic Mode Status Register (BMSR).
use vstd::prelude::*;

pub mod bmcr;
pub mod bmsr;

use bmcr::Reader as BmcrReader;
use bmcr::Writer as BmcrWriter;
use bmsr::Reader as BmsrReader;
use bmsr::{BMSR_LINK_DETECTED, BMSR_HALF_DUPLEX_100, BMSR_FULL_DUPLEX_100};

verus! {

/// PHY registers the driver uses.
#[derive(Clone, Copy, Debug, PartialEq, Eq, Structural)]
pub enum Register {
    Bmcr,
    Bmsr,
    /// Auto Negotiation Advertisement Register
    Anar,
    /// Auto Negotiation Link Partner Ability Register
    Anlpar,
    /// Phy Control Register #1
    Pcr1,
}

/// Address of a PHY register.
pub open spec fn spec_register_address(r: Register) -> u8 {
    match r {
        Register::Bmcr => 0x00,
        Register::Bmsr => 0x01,
        Register::Anar => 0x04,
        Register::Anlpar => 0x05,
        Register::Pcr1 => 0x1E,
    }
}

impl Register {
    /// Address of the register.
    pub fn address(&self) -> (r: u8)
        ensures r == spec_register_address(*self),
    {
        match self {
            Register::Bmcr => 0x00,
            Register::Bmsr => 0x01,
            Register::Anar => 0x04,
            Register::Anlpar => 0x05,
            Register::Pcr1 => 0x1E,
        }
    }
}

/// Link established by auto-negotiation.
#[derive(Clone, Copy, Debug, PartialEq, Eq, Structural)]
pub enum LinkType {
    HalfDuplex10,
    FullDuplex10,
    HalfDuplex100,
    FullDuplex100,
}

/// Whether bit `b` of a 16-bit register value is set.
pub open spec fn bit16(v: u16, b: u16) -> bool {
    v & (1u16 << b) != 0
}

/// The link speed a controller reports from the PHY status: none without a link,
/// else 100 when 100 Mbit/s capable, else 10.
pub open spec fn spec_link_state(bmsr: u16) -> Option<u32> {
    if !bit16(bmsr, BMSR_LINK_DETECTED) {
        None
    } else if bit16(bmsr, BMSR_HALF_DUPLEX_100) || bit16(bmsr, BMSR_FULL_DUPLEX_100) {
        Some(100)
    } else {
        Some(10)
    }
}

/// The link speed reported for a PHY status value.
pub fn link_state(status: BmsrReader) -> (r: Option<u32>)
    ensures r == spec_link_state(status.0),
{
    match status.link_detected() {
        false => None,
        true => {
            if status.is_100mbit() {
                Some(100)
            } else {
                Some(10)
            }
        },
    }
}

/// The link auto-negotiation settles on, from the link partner's abilities: the
/// fastest one, full duplex before half duplex, 10 Mbit/s half duplex when the
/// partner names none of the others.
pub open spec fn spec_negotiated_link(full_duplex_100: bool, half_duplex_100: bool, full_duplex_10: bool) -> LinkType {
    if full_duplex_100 {
        LinkType::FullDuplex100
    } else if half_duplex_100 {
        LinkType::HalfDuplex100
    } else if full_duplex_10 {
        LinkType::FullDuplex10
    } else {
        LinkType::HalfDuplex10
    }
}

/// The link for the partner abilities read after auto-negotiation.
pub fn negotiated_link(full_duplex_100: bool, half_duplex_100: bool, full_duplex_10: bool) -> (r: LinkType)
    ensures r == spec_negotiated_link(full_duplex_100, half_duplex_100, full_duplex_10),
{
    if full_duplex_100 {
        LinkType::FullDuplex100
    } else if half_duplex_100 {
        LinkType::HalfDuplex100
    } else if full_duplex_10 {
        LinkType::FullDuplex10
    } else {
        LinkType::HalfDuplex10
    }
}

/// The BMCR before the advertisement is set: auto-negotiation, loop back and power
/// down off, the PHY isolated.
pub fn bmcr_isolated_for_negotiation(bmcr: u16) -> (r: u16)
    ensures
        r == (((bmcr & !(1u16 << bmcr::BMCR_ENABLE_AUTO_NEGOTIATION)) & !(1u16 << bmcr::BMCR_LOOP_BACK))
            & !(1u16 << bmcr::BMCR_POWER_DOWN)) | (1u16 << bmcr::BMCR_ISOLATE),
{
    BmcrWriter::new(bmcr).clear_enable_auto_negotiation().clear_loop_back().clear_power_down().set_isolate().0
}

/// The BMCR that asks for 100 Mbit/s full duplex with auto-negotiation.
pub fn bmcr_negotiation_enabled(bmcr: u16) -> (r: u16)
    ensures
        r == ((bmcr | (1u16 << bmcr::BMCR_SPEED_100)) | (1u16 << bmcr::BMCR_ENABLE_AUTO_NEGOTIATION))
            | (1u16 << bmcr::BMCR_FULL_DUPLEX),
{
    BmcrWriter::new(bmcr).set_speed_100().set_enable_auto_negotiation().set_full_duplex().0
}

/// The BMCR that restarts auto-negotiation and ends the isolation.
pub fn bmcr_negotiation_restarted(bmcr: u16) -> (r: u16)
    ensures
        r == (bmcr | (1u16 << bmcr::BMCR_RESTART_AUTO_NEGOTIATION)) & !(1u16 << bmcr::BMCR_ISOLATE),
{
    BmcrWriter::new(bmcr).set_auto_negotiation_restart().clear_isolate().0
}

/// Access to the PHY registers over the management bus. Nothing is assumed of what
/// the PHY answers.
pub trait Phy {
    fn read_phy_register(&self, register: Register) -> u16;
    fn write_phy_register(&mut self, register: Register, new_value: u16);
    fn enable_phy_management_port(&self);
    fn disable_phy_management_port(&self);

    /// Reads the BMCR with the management port enabled only for the read.
    fn read_phy_bmcr(&self) -> (r: BmcrReader) {
        self.enable_phy_management_port();
        let value = BmcrReader::new(self.read_phy_register(Register::Bmcr));
        self.disable_phy_management_port();
        value
    }

    /// Reads the BMSR with the management port enabled only for the read.
    fn read_phy_bmsr(&self) -> (r: BmsrReader) {
        self.enable_phy_management_port();
        let value = BmsrReader::new(self.read_phy_register(Register::Bmsr));
        self.disable_phy_management_port();
        value
    }

    /// Writes `value` to the BMCR with the management port enabled only for the write.
    fn write_phy_bmcr(&mut self, value: BmcrWriter) {
        self.enable_phy_management_port();
        self.write_phy_register(Register::Bmcr, value.0);
        self.disable_phy_management_port();
    }
}

} // verus!
