//! Basic Mode Status Register (BMSR) of the PHY.
use vstd::prelude::*;
use super::bit16;

verus! {

/// BMSR bit: link detected.
pub const BMSR_LINK_DETECTED: u16 = 2;
/// BMSR bit: auto-negotiation complete.
pub const BMSR_AUTO_NEGOTIATION_COMPLETE: u16 = 5;
/// BMSR bit: capable of 10BASE-T half duplex.
pub const BMSR_HALF_DUPLEX_10: u16 = 11;
/// BMSR bit: capable of 10BASE-T full duplex.
pub const BMSR_FULL_DUPLEX_10: u16 = 12;
/// BMSR bit: capable of 100BASE-TX half duplex.
pub const BMSR_HALF_DUPLEX_100: u16 = 13;
/// BMSR bit: capable of 100BASE-TX full duplex.
pub const BMSR_FULL_DUPLEX_100: u16 = 14;

/// Reads a BMSR value.
#[derive(Clone, Copy)]
pub struct Reader(pub u16);

impl Reader {
    pub fn new(initial_value: u16) -> (r: Self)
        ensures r.0 == initial_value,
    {
        Reader(initial_value)
    }

    /// Link detected (bit 2).
    pub fn link_detected(&self) -> (r: bool)
        ensures r == bit16(self.0, BMSR_LINK_DETECTED),
    {
        self.0 & (1u16 << BMSR_LINK_DETECTED) != 0
    }

    /// Auto-negotiation complete (bit 5).
    pub fn auto_negotiation_complete(&self) -> (r: bool)
        ensures r == bit16(self.0, BMSR_AUTO_NEGOTIATION_COMPLETE),
    {
        self.0 & (1u16 << BMSR_AUTO_NEGOTIATION_COMPLETE) != 0
    }

    /// Capable of 10 Mbit/s (bit 11 or 12).
    pub fn _is_10mbit(&self) -> (r: bool)
        ensures r == (bit16(self.0, BMSR_HALF_DUPLEX_10) || bit16(self.0, BMSR_FULL_DUPLEX_10)),
    {
        let r = (self.0 & ((1u16 << BMSR_HALF_DUPLEX_10) | (1u16 << BMSR_FULL_DUPLEX_10))) != 0;
        proof {
            let v = self.0;
            assert((v & ((1u16 << 11u16) | (1u16 << 12u16)) != 0)
                == (v & (1u16 << 11u16) != 0 || v & (1u16 << 12u16) != 0)) by (bit_vector);
        }
        r
    }

    /// Meant to tell full duplex capability; it tests bits 12 and 14 at once in one
    /// mask (`bit12 & bit14`), which is zero, so it is always false.
    pub fn _is_full_duplex(&self) -> (r: bool)
        ensures !r,
    {
        let r = (self.0 & (1u16 << BMSR_FULL_DUPLEX_10) & (1u16 << BMSR_FULL_DUPLEX_100)) != 0;
        proof {
            let v = self.0;
            assert((v & (1u16 << 12u16) & (1u16 << 14u16)) == 0) by (bit_vector);
        }
        r
    }

    /// Capable of 100 Mbit/s (bit 13 or 14).
    pub fn is_100mbit(&self) -> (r: bool)
        ensures r == (bit16(self.0, BMSR_HALF_DUPLEX_100) || bit16(self.0, BMSR_FULL_DUPLEX_100)),
    {
        let r = (self.0 & ((1u16 << BMSR_HALF_DUPLEX_100) | (1u16 << BMSR_FULL_DUPLEX_100))) != 0;
        proof {
            let v = self.0;
            assert((v & ((1u16 << 13u16) | (1u16 << 14u16)) != 0)
                == (v & (1u16 << 13u16) != 0 || v & (1u16 << 14u16) != 0)) by (bit_vector);
        }
        r
    }

    /// Link speed in Mbit/s: 10 when 10 Mbit/s capable, else 100 when 100 Mbit/s
    /// capable, else 0.
    pub fn _speed(&self) -> (r: u32)
        ensures
            r == (if bit16(self.0, BMSR_HALF_DUPLEX_10) || bit16(self.0, BMSR_FULL_DUPLEX_10) { 10u32 }
                else if bit16(self.0, BMSR_HALF_DUPLEX_100) || bit16(self.0, BMSR_FULL_DUPLEX_100) { 100u32 }
                else { 0u32 }),
    {
        if self._is_10mbit() {
            10
        } else if self.is_100mbit() {
            100
        } else {
            0
        }
    }
}

} // verus!
