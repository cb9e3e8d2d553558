//! A generic Ethernet PHY on the station management interface (SMI): link
//! detection and initialization.
use vstd::prelude::*;

verus! {

/// Basic control register.
pub const PHY_REG_BCR: u8 = 0x00;
/// Basic status register.
pub const PHY_REG_BSR: u8 = 0x01;
/// MMD access control register.
pub const PHY_REG_CTL: u8 = 0x0D;
/// MMD access address or data register.
pub const PHY_REG_ADDAR: u8 = 0x0E;
/// Wake-up control and status register (in MMD space).
pub const PHY_REG_WUCSR: u16 = 0x8010;

/// BCR: restart auto-negotiation (bit 9).
pub const PHY_REG_BCR_ANRST: u16 = 0x0200;
/// BCR: enable auto-negotiation (bit 12).
pub const PHY_REG_BCR_AN: u16 = 0x1000;
/// BCR: 100 Mbit/s (bit 13).
pub const PHY_REG_BCR_100M: u16 = 0x2000;
/// BCR: reset (bit 15).
pub const PHY_REG_BCR_RESET: u16 = 0x8000;
/// BSR: link up (bit 2).
pub const PHY_REG_BSR_UP: u16 = 0x0004;
/// BSR: auto-negotiation done (bit 5).
pub const PHY_REG_BSR_ANDONE: u16 = 0x0020;

/// Reads and writes PHY registers over the management interface. Its state is the
/// log of the writes made through it and the value each register reads as now;
/// implementations are believed, not checked, to keep the contracts below.
pub trait StationManagement {
    /// The number of writes made so far.
    spec fn write_count(&self) -> usize;

    /// Write `i` (the first being 0) made so far: its register and value.
    spec fn write_at(&self, i: usize) -> (u8, u16);

    /// The value register `reg` reads as now.
    spec fn read_value(&self, reg: u8) -> u16;

    /// Reads a register; no write is made.
    fn smi_read(&mut self, reg: u8) -> (r: u16)
        ensures
            r == old(self).read_value(reg),
            final(self).write_count() == old(self).write_count(),
            forall|i: usize| i < old(self).write_count() ==> #[trigger] final(self).write_at(i) == old(self).write_at(i),
    ;

    /// Writes a register: the write is logged after the earlier ones.
    fn smi_write(&mut self, reg: u8, val: u16)
        requires
            old(self).write_count() < usize::MAX,
        ensures
            final(self).write_count() == old(self).write_count() + 1,
            final(self).write_at(old(self).write_count()) == (reg, val),
            forall|i: usize| i < old(self).write_count() ==> #[trigger] final(self).write_at(i) == old(self).write_at(i),
    ;
}

/// The writes made through a management interface so far, oldest first.
pub open spec fn smi_writes<S: StationManagement>(sm: S) -> Seq<(u8, u16)> {
    Seq::new(sm.write_count() as nat, |i: int| sm.write_at(i as usize))
}

/// A PHY that follows the IEEE registers.
pub struct GenericSMI;

/// Whether a basic status value shows a link: auto-negotiation done and link up.
pub open spec fn spec_link_up(bsr: u16) -> bool {
    bsr & PHY_REG_BSR_ANDONE != 0 && bsr & PHY_REG_BSR_UP != 0
}

/// The register writes that set an extended (MMD) register: address, then data.
pub open spec fn spec_write_ext(reg_addr: u16, reg_data: u16) -> Seq<(u8, u16)> {
    seq![(PHY_REG_CTL, 0x0003u16), (PHY_REG_ADDAR, reg_addr), (PHY_REG_CTL, 0x4003u16), (PHY_REG_ADDAR, reg_data)]
}

/// The register writes that initialize the PHY: the wake-up register cleared, then
/// auto-negotiation enabled and restarted at 100 Mbit/s.
pub open spec fn spec_init_writes() -> Seq<(u8, u16)> {
    spec_write_ext(PHY_REG_WUCSR, 0) + seq![(PHY_REG_BCR, (PHY_REG_BCR_AN | PHY_REG_BCR_ANRST | PHY_REG_BCR_100M) as u16)]
}

impl GenericSMI {
    /// Whether a basic status register value shows a link.
    pub fn link_up(bsr: u16) -> (r: bool)
        ensures r == spec_link_up(bsr),
    {
        // No link without auto-negotiation, nor while the link is down.
        if bsr & PHY_REG_BSR_ANDONE == 0 {
            return false;
        }
        if bsr & PHY_REG_BSR_UP == 0 {
            return false;
        }
        true
    }

    /// Whether a basic control register value shows the PHY out of reset.
    pub fn reset_done(bcr: u16) -> (r: bool)
        ensures r == (bcr & PHY_REG_BCR_RESET != PHY_REG_BCR_RESET),
    {
        bcr & PHY_REG_BCR_RESET != PHY_REG_BCR_RESET
    }

    /// Starts a reset of the PHY: the reset bit written to the basic control
    /// register. The PHY is out of reset once `reset_done` holds of that register.
    pub fn phy_reset<S: StationManagement>(sm: &mut S)
        requires
            old(sm).write_count() < usize::MAX,
        ensures
            smi_writes(*final(sm)) == smi_writes(*old(sm)).push((PHY_REG_BCR, PHY_REG_BCR_RESET)),
    {
        sm.smi_write(PHY_REG_BCR, PHY_REG_BCR_RESET);
        assert(smi_writes(*sm) =~= smi_writes(*old(sm)).push((PHY_REG_BCR, PHY_REG_BCR_RESET)));
    }

    /// The writes that set an extended register.
    pub fn write_ext_sequence(reg_addr: u16, reg_data: u16) -> (r: Vec<(u8, u16)>)
        ensures r@ == spec_write_ext(reg_addr, reg_data),
    {
        let mut v = Vec::new();
        v.push((PHY_REG_CTL, 0x0003u16));
        v.push((PHY_REG_ADDAR, reg_addr));
        v.push((PHY_REG_CTL, 0x4003u16));
        v.push((PHY_REG_ADDAR, reg_data));
        assert(v@ =~= spec_write_ext(reg_addr, reg_data));
        v
    }

    /// The writes that initialize the PHY.
    pub fn init_sequence() -> (r: Vec<(u8, u16)>)
        ensures r@ == spec_init_writes(),
    {
        let mut v = Self::write_ext_sequence(PHY_REG_WUCSR, 0);
        v.push((PHY_REG_BCR, PHY_REG_BCR_AN | PHY_REG_BCR_ANRST | PHY_REG_BCR_100M));
        assert(v@ =~= spec_init_writes());
        v
    }

    /// Makes the writes of a sequence, in order.
    fn write_all<S: StationManagement>(sm: &mut S, writes: &Vec<(u8, u16)>)
        requires
            old(sm).write_count() + writes@.len() <= usize::MAX,
        ensures
            smi_writes(*final(sm)) == smi_writes(*old(sm)) + writes@,
    {
        let mut i: usize = 0;
        while i < writes.len()
            invariant
                i <= writes.len(),
                old(sm).write_count() + writes@.len() <= usize::MAX,
                smi_writes(*sm) == smi_writes(*old(sm)) + writes@.subrange(0, i as int),
            decreases writes.len() - i,
        {
            let (reg, val) = writes[i];
            let ghost before = *sm;
            proof {
                assert(smi_writes(before).len() == before.write_count());
            }
            sm.smi_write(reg, val);
            proof {
                assert(smi_writes(*sm) =~= smi_writes(before).push((reg, val)));
                assert(writes@.subrange(0, i + 1) =~= writes@.subrange(0, i as int).push(writes@[i as int]));
            }
            i = i + 1;
        }
        assert(writes@.subrange(0, writes@.len() as int) =~= writes@);
    }

    /// Writes a value to an extended register: the writes of `write_ext_sequence`.
    pub fn smi_write_ext<S: StationManagement>(sm: &mut S, reg_addr: u16, reg_data: u16)
        requires
            old(sm).write_count() + 4 <= usize::MAX,
        ensures
            smi_writes(*final(sm)) == smi_writes(*old(sm)) + spec_write_ext(reg_addr, reg_data),
    {
        let writes = Self::write_ext_sequence(reg_addr, reg_data);
        Self::write_all(sm, &writes);
    }

    /// Initializes the PHY: the writes of `init_sequence`.
    pub fn phy_init<S: StationManagement>(sm: &mut S)
        requires
            old(sm).write_count() + 5 <= usize::MAX,
        ensures
            smi_writes(*final(sm)) == smi_writes(*old(sm)) + spec_init_writes(),
    {
        let writes = Self::init_sequence();
        Self::write_all(sm, &writes);
    }

    /// Whether the link is up, reading the basic status register (no write is made).
    pub fn poll_link<S: StationManagement>(sm: &mut S) -> (r: bool)
        ensures
            r == spec_link_up(old(sm).read_value(PHY_REG_BSR)),
            smi_writes(*final(sm)) == smi_writes(*old(sm)),
    {
        let ghost before = *sm;
        let bsr = sm.smi_read(PHY_REG_BSR);
        assert(smi_writes(*sm) =~= smi_writes(before));
        Self::link_up(bsr)
    }
}

} // verus!
