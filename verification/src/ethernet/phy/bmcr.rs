//! Basic Mode Control Register (BMCR) of the PHY.
use vstd::prelude::*;
use super::bit16;

verus! {

/// BMCR bit: full duplex.
pub const BMCR_FULL_DUPLEX: u16 = 8;
/// BMCR bit: restart auto-negotiation.
pub const BMCR_RESTART_AUTO_NEGOTIATION: u16 = 9;
/// BMCR bit: isolate.
pub const BMCR_ISOLATE: u16 = 10;
/// BMCR bit: power down.
pub const BMCR_POWER_DOWN: u16 = 11;
/// BMCR bit: enable auto-negotiation.
pub const BMCR_ENABLE_AUTO_NEGOTIATION: u16 = 12;
/// BMCR bit: 100 Mbit/s.
pub const BMCR_SPEED_100: u16 = 13;
/// BMCR bit: loop back.
pub const BMCR_LOOP_BACK: u16 = 14;
/// BMCR bit: reset.
pub const BMCR_RESET: u16 = 15;

/// Builds a new BMCR value.
#[derive(Clone, Copy)]
pub struct Writer(pub u16);

impl Writer {
    /// Starts from the given register value.
    pub fn new(initial_value: u16) -> (r: Self)
        ensures r.0 == initial_value,
    {
        Writer(initial_value)
    }

    pub fn set_full_duplex(self) -> (r: Self)
        ensures r.0 == self.0 | (1u16 << BMCR_FULL_DUPLEX),
    {
        Self(self.0 | (1u16 << BMCR_FULL_DUPLEX))
    }

    pub fn set_auto_negotiation_restart(self) -> (r: Self)
        ensures r.0 == self.0 | (1u16 << BMCR_RESTART_AUTO_NEGOTIATION),
    {
        Self(self.0 | (1u16 << BMCR_RESTART_AUTO_NEGOTIATION))
    }

    pub fn set_isolate(self) -> (r: Self)
        ensures r.0 == self.0 | (1u16 << BMCR_ISOLATE),
    {
        Self(self.0 | (1u16 << BMCR_ISOLATE))
    }

    pub fn clear_isolate(self) -> (r: Self)
        ensures r.0 == self.0 & !(1u16 << BMCR_ISOLATE),
    {
        Self(self.0 & !(1u16 << BMCR_ISOLATE))
    }

    pub fn set_power_down(self) -> (r: Self)
        ensures r.0 == self.0 | (1u16 << BMCR_POWER_DOWN),
    {
        Self(self.0 | (1u16 << BMCR_POWER_DOWN))
    }

    pub fn clear_power_down(self) -> (r: Self)
        ensures r.0 == self.0 & !(1u16 << BMCR_POWER_DOWN),
    {
        Self(self.0 & !(1u16 << BMCR_POWER_DOWN))
    }

    pub fn set_enable_auto_negotiation(self) -> (r: Self)
        ensures r.0 == self.0 | (1u16 << BMCR_ENABLE_AUTO_NEGOTIATION),
    {
        Self(self.0 | (1u16 << BMCR_ENABLE_AUTO_NEGOTIATION))
    }

    pub fn clear_enable_auto_negotiation(self) -> (r: Self)
        ensures r.0 == self.0 & !(1u16 << BMCR_ENABLE_AUTO_NEGOTIATION),
    {
        Self(self.0 & !(1u16 << BMCR_ENABLE_AUTO_NEGOTIATION))
    }

    pub fn set_speed_100(self) -> (r: Self)
        ensures r.0 == self.0 | (1u16 << BMCR_SPEED_100),
    {
        Self(self.0 | (1u16 << BMCR_SPEED_100))
    }

    pub fn set_loop_back(self) -> (r: Self)
        ensures r.0 == self.0 | (1u16 << BMCR_LOOP_BACK),
    {
        Self(self.0 | (1u16 << BMCR_LOOP_BACK))
    }

    pub fn clear_loop_back(self) -> (r: Self)
        ensures r.0 == self.0 & !(1u16 << BMCR_LOOP_BACK),
    {
        Self(self.0 & !(1u16 << BMCR_LOOP_BACK))
    }

    pub fn set_reset(self) -> (r: Self)
        ensures r.0 == self.0 | (1u16 << BMCR_RESET),
    {
        Self(self.0 | (1u16 << BMCR_RESET))
    }
}

/// The reset bit of the BMCR.
pub struct Reset(pub bool);

impl Reset {
    /// Whether the PHY is still resetting.
    pub fn is_set(&self) -> (r: bool)
        ensures r == self.0,
    {
        self.0
    }
}

/// Reads a BMCR value.
pub struct Reader(pub u16);

impl Reader {
    pub fn new(value: u16) -> (r: Self)
        ensures r.0 == value,
    {
        Reader(value)
    }

    /// The reset bit (bit 15).
    pub fn reset(&self) -> (r: Reset)
        ensures r.0 == bit16(self.0, BMCR_RESET),
    {
        Reset((self.0 & (1u16 << BMCR_RESET)) != 0)
    }
}

} // verus!
