//! Watchdog timer (WDT): the mode register values that start or disable it and the
//! control word that feeds it.
use vstd::prelude::*;

verus! {

/// `WDT_MR.WDDIS` (bit 15).
pub const MR_WDDIS: u32 = 0x0000_8000;
/// `WDT_MR.WDRSTEN` (bit 13): reset the processor on underflow.
pub const MR_WDRSTEN: u32 = 0x0000_2000;
/// `WDT_CR` value that restarts the watchdog: the password (0xA5) and `WDRSTT`.
pub const CR_FEED: u32 = 0xA500_0001;

/// The watchdog, by the value of its mode register (which can be written once).
pub struct Watchdog {
    /// `WDT_MR`.
    pub mr: u32,
}

/// `WDT_MR` that starts the watchdog: reset enabled, counter value 0xFFF (bits
/// 0..=11) and delta value `period` (bits 16..=27), the other bits kept.
pub open spec fn spec_started_mr(mr: u32, period: u16) -> u32 {
    (mr & !0x0FFF_0FFFu32) | MR_WDRSTEN | 0x0FFFu32 | (((period as u32) & 0x0FFF) << 16u32)
}

impl Watchdog {
    /// The watchdog with its current mode register value.
    pub fn new(mr: u32) -> (r: Self)
        ensures r.mr == mr,
    {
        Watchdog { mr }
    }

    /// The control word that feeds (restarts) the watchdog.
    pub fn feed(&self) -> (r: u32)
        ensures r == CR_FEED,
    {
        CR_FEED
    }

    /// Disables the watchdog.
    pub fn disable(&mut self)
        ensures final(self).mr == old(self).mr | MR_WDDIS,
    {
        self.mr = self.mr | MR_WDDIS;
    }

    /// Starts the watchdog with delta value `period`.
    pub fn start(&mut self, period: u16)
        ensures final(self).mr == spec_started_mr(old(self).mr, period),
    {
        self.mr = (self.mr & !0x0FFF_0FFFu32) | MR_WDRSTEN | 0x0FFFu32 | (((period as u32) & 0x0FFF) << 16u32);
    }
}

} // verus!
