//! The SKY66112 radio front end: its modes are set by the levels of its control
//! pins (CSD, CPS, CRX, CTX, CHL) and the antenna by ANT_SEL. The mode is part of
//! the driver's type; a new driver is in the `Undefined` mode. Mode changes only
//! take lines whose driving cannot fail.
use vstd::prelude::*;
use core::marker::PhantomData;
use crate::dribbler::sat_inc;

verus! {

pub struct SleepMode;
pub struct ReceiveLnaMode;
pub struct TransmitHighPowerMode;
pub struct TransmitLowPowerMode;
pub struct ReceiveBypassMode;
pub struct TransmitBypassMode;
pub struct Undefined;

/// The modes of the front end.
pub trait Mode {}

impl Mode for SleepMode {}
impl Mode for ReceiveLnaMode {}
impl Mode for TransmitHighPowerMode {}
impl Mode for TransmitLowPowerMode {}
impl Mode for ReceiveBypassMode {}
impl Mode for TransmitBypassMode {}
impl Mode for Undefined {}

/// A control line: its state is the level it was last driven to, none before it
/// has been driven, and how many times it has been driven. Implementations are
/// believed, not checked, to keep the contracts of this trait and of the two below.
pub trait ControlLine {
    /// The level the line was last driven to (high is `true`).
    spec fn level(&self) -> Option<bool>;

    /// How many times the line has been driven.
    spec fn drives(&self) -> u64;
}

/// A control line that can be driven high.
pub trait HighSettable: ControlLine {
    type Error;

    /// Whether driving lines of this type high never fails.
    spec fn high_infallible() -> bool;

    /// Drives the line high.
    fn set_high(&mut self) -> (r: Result<(), Self::Error>)
        ensures
            Self::high_infallible() ==> r is Ok,
            r is Ok ==> final(self).level() == Some(true),
            r is Ok ==> final(self).drives() == sat_inc(old(self).drives()),
    ;
}

/// A control line that can be driven low.
pub trait LowSettable: ControlLine {
    type Error;

    /// Whether driving lines of this type low never fails.
    spec fn low_infallible() -> bool;

    /// Drives the line low.
    fn set_low(&mut self) -> (r: Result<(), Self::Error>)
        ensures
            Self::low_infallible() ==> r is Ok,
            r is Ok ==> final(self).level() == Some(false),
            r is Ok ==> final(self).drives() == sat_inc(old(self).drives()),
    ;
}

/// A control line tied high on the board; driving it does nothing but is counted.
pub struct TiedHigh {
    drives: Ghost<u64>,
}

impl TiedHigh {
    /// A tied line not yet driven.
    pub fn new() -> (r: Self)
        ensures
            r.drives() == 0,
    {
        TiedHigh { drives: Ghost(0) }
    }
}

impl ControlLine for TiedHigh {
    open spec fn level(&self) -> Option<bool> {
        Some(true)
    }

    closed spec fn drives(&self) -> u64 {
        self.drives@
    }
}

impl HighSettable for TiedHigh {
    type Error = ();

    open spec fn high_infallible() -> bool {
        true
    }

    fn set_high(&mut self) -> (r: Result<(), ()>)
        ensures r is Ok,
    {
        proof {
            self.drives@ = sat_inc(self.drives@);
        }
        Ok(())
    }
}

/// A control line tied low on the board; driving it does nothing but is counted.
pub struct TiedLow {
    drives: Ghost<u64>,
}

impl TiedLow {
    /// A tied line not yet driven.
    pub fn new() -> (r: Self)
        ensures
            r.drives() == 0,
    {
        TiedLow { drives: Ghost(0) }
    }
}

impl ControlLine for TiedLow {
    open spec fn level(&self) -> Option<bool> {
        Some(false)
    }

    closed spec fn drives(&self) -> u64 {
        self.drives@
    }
}

impl LowSettable for TiedLow {
    type Error = ();

    open spec fn low_infallible() -> bool {
        true
    }

    fn set_low(&mut self) -> (r: Result<(), ()>)
        ensures r is Ok,
    {
        proof {
            self.drives@ = sat_inc(self.drives@);
        }
        Ok(())
    }
}

/// The front end in mode `M` with its control lines.
#[allow(non_camel_case_types)]
pub struct Sky66112<M, CSD, CPS, CRX, CTX, CHL, ANT_SEL> {
    csd: CSD,
    cps: CPS,
    crx: CRX,
    ctx: CTX,
    chl: CHL,
    ant_sel: ANT_SEL,
    _marker: PhantomData<M>,
}

#[allow(non_camel_case_types)]
impl<M, CSD, CPS, CRX, CTX, CHL, ANT_SEL> Sky66112<M, CSD, CPS, CRX, CTX, CHL, ANT_SEL> {
    /// The chip shutdown line.
    pub closed spec fn csd(&self) -> CSD { self.csd }
    /// The power amplifier select line.
    pub closed spec fn cps(&self) -> CPS { self.cps }
    /// The receive enable line.
    pub closed spec fn crx(&self) -> CRX { self.crx }
    /// The transmit enable line.
    pub closed spec fn ctx(&self) -> CTX { self.ctx }
    /// The high/low power select line.
    pub closed spec fn chl(&self) -> CHL { self.chl }
    /// The antenna select line.
    pub closed spec fn ant_sel(&self) -> ANT_SEL { self.ant_sel }

    /// The same lines in another mode.
    fn change_mode<N>(self) -> (r: Sky66112<N, CSD, CPS, CRX, CTX, CHL, ANT_SEL>)
        ensures
            r.csd() == self.csd(),
            r.cps() == self.cps(),
            r.crx() == self.crx(),
            r.ctx() == self.ctx(),
            r.chl() == self.chl(),
            r.ant_sel() == self.ant_sel(),
    {
        Sky66112 {
            csd: self.csd,
            cps: self.cps,
            crx: self.crx,
            ctx: self.ctx,
            chl: self.chl,
            ant_sel: self.ant_sel,
            _marker: PhantomData,
        }
    }
}

#[allow(non_camel_case_types)]
impl<CSD, CPS, CRX, CTX, CHL, ANT_SEL> Sky66112<Undefined, CSD, CPS, CRX, CTX, CHL, ANT_SEL> {
    /// A front end on the given control lines, in no known mode.
    pub fn new(csd: CSD, cps: CPS, crx: CRX, ctx: CTX, chl: CHL, ant_sel: ANT_SEL) -> (r: Self)
        ensures
            r.csd() == csd,
            r.cps() == cps,
            r.crx() == crx,
            r.ctx() == ctx,
            r.chl() == chl,
            r.ant_sel() == ant_sel,
    {
        Sky66112 { csd, cps, crx, ctx, chl, ant_sel, _marker: PhantomData }
    }
}

#[allow(non_camel_case_types)]
impl<M: Mode, CSD: LowSettable, CPS, CRX, CTX, CHL, ANT_SEL> Sky66112<M, CSD, CPS, CRX, CTX, CHL, ANT_SEL> {
    /// Sleep mode: CSD low. The lines are driven in this order, the
    /// others left alone; each named line is driven exactly once (the order of the calls
/// across lines is not stated); a line that can fail to be driven is not accepted.
    pub fn into_sleep_mode(self) -> (r: Sky66112<SleepMode, CSD, CPS, CRX, CTX, CHL, ANT_SEL>)
        requires
            CSD::low_infallible(),
        ensures
            r.csd().level() == Some(false),
            r.csd().drives() == sat_inc(self.csd().drives()),
            r.cps() == self.cps(),
            r.crx() == self.crx(),
            r.ctx() == self.ctx(),
            r.chl() == self.chl(),
            r.ant_sel() == self.ant_sel(),
    {
        let mut s = self;
        let _ = s.csd.set_low();
        s.change_mode()
    }
}

#[allow(non_camel_case_types)]
impl<M: Mode, CSD: HighSettable, CPS: LowSettable, CRX: HighSettable, CTX: LowSettable, CHL, ANT_SEL> Sky66112<M, CSD, CPS, CRX, CTX, CHL, ANT_SEL> {
    /// Receive with the low noise amplifier: CSD high, CPS low, CRX high, CTX low. The lines are driven in this order, the
    /// others left alone; each named line is driven exactly once (the order of the calls
/// across lines is not stated); a line that can fail to be driven is not accepted.
    pub fn into_receive_lna_mode(self) -> (r: Sky66112<ReceiveLnaMode, CSD, CPS, CRX, CTX, CHL, ANT_SEL>)
        requires
            CSD::high_infallible(),
            CPS::low_infallible(),
            CRX::high_infallible(),
            CTX::low_infallible(),
        ensures
            r.csd().level() == Some(true),
            r.csd().drives() == sat_inc(self.csd().drives()),
            r.cps().level() == Some(false),
            r.cps().drives() == sat_inc(self.cps().drives()),
            r.crx().level() == Some(true),
            r.crx().drives() == sat_inc(self.crx().drives()),
            r.ctx().level() == Some(false),
            r.ctx().drives() == sat_inc(self.ctx().drives()),
            r.chl() == self.chl(),
            r.ant_sel() == self.ant_sel(),
    {
        let mut s = self;
        let _ = s.csd.set_high();
        let _ = s.cps.set_low();
        let _ = s.crx.set_high();
        let _ = s.ctx.set_low();
        s.change_mode()
    }
}

#[allow(non_camel_case_types)]
impl<M: Mode, CSD: HighSettable, CPS: LowSettable, CRX, CTX: HighSettable, CHL: HighSettable, ANT_SEL> Sky66112<M, CSD, CPS, CRX, CTX, CHL, ANT_SEL> {
    /// Transmit at high power: CSD high, CPS low, CTX high, CHL high. The lines are driven in this order, the
    /// others left alone; each named line is driven exactly once (the order of the calls
/// across lines is not stated); a line that can fail to be driven is not accepted.
    pub fn into_transmit_high_power_mode(self) -> (r: Sky66112<TransmitHighPowerMode, CSD, CPS, CRX, CTX, CHL, ANT_SEL>)
        requires
            CSD::high_infallible(),
            CPS::low_infallible(),
            CTX::high_infallible(),
            CHL::high_infallible(),
        ensures
            r.csd().level() == Some(true),
            r.csd().drives() == sat_inc(self.csd().drives()),
            r.cps().level() == Some(false),
            r.cps().drives() == sat_inc(self.cps().drives()),
            r.crx() == self.crx(),
            r.ctx().level() == Some(true),
            r.ctx().drives() == sat_inc(self.ctx().drives()),
            r.chl().level() == Some(true),
            r.chl().drives() == sat_inc(self.chl().drives()),
            r.ant_sel() == self.ant_sel(),
    {
        let mut s = self;
        let _ = s.csd.set_high();
        let _ = s.cps.set_low();
        let _ = s.ctx.set_high();
        let _ = s.chl.set_high();
        s.change_mode()
    }
}

#[allow(non_camel_case_types)]
impl<M: Mode, CSD: HighSettable, CPS: LowSettable, CRX, CTX: HighSettable, CHL: LowSettable, ANT_SEL> Sky66112<M, CSD, CPS, CRX, CTX, CHL, ANT_SEL> {
    /// Transmit at low power: CSD high, CPS low, CTX high, CHL low. The lines are driven in this order, the
    /// others left alone; each named line is driven exactly once (the order of the calls
/// across lines is not stated); a line that can fail to be driven is not accepted.
    pub fn into_transmit_low_power_mode(self) -> (r: Sky66112<TransmitLowPowerMode, CSD, CPS, CRX, CTX, CHL, ANT_SEL>)
        requires
            CSD::high_infallible(),
            CPS::low_infallible(),
            CTX::high_infallible(),
            CHL::low_infallible(),
        ensures
            r.csd().level() == Some(true),
            r.csd().drives() == sat_inc(self.csd().drives()),
            r.cps().level() == Some(false),
            r.cps().drives() == sat_inc(self.cps().drives()),
            r.crx() == self.crx(),
            r.ctx().level() == Some(true),
            r.ctx().drives() == sat_inc(self.ctx().drives()),
            r.chl().level() == Some(false),
            r.chl().drives() == sat_inc(self.chl().drives()),
            r.ant_sel() == self.ant_sel(),
    {
        let mut s = self;
        let _ = s.csd.set_high();
        let _ = s.cps.set_low();
        let _ = s.ctx.set_high();
        let _ = s.chl.set_low();
        s.change_mode()
    }
}

#[allow(non_camel_case_types)]
impl<M: Mode, CSD: HighSettable, CPS: HighSettable, CRX: HighSettable, CTX: LowSettable, CHL, ANT_SEL> Sky66112<M, CSD, CPS, CRX, CTX, CHL, ANT_SEL> {
    /// Receive bypassing the amplifier: CSD high, CPS high, CRX high, CTX low. The lines are driven in this order, the
    /// others left alone; each named line is driven exactly once (the order of the calls
/// across lines is not stated); a line that can fail to be driven is not accepted.
    pub fn into_receive_bypass_mode(self) -> (r: Sky66112<ReceiveBypassMode, CSD, CPS, CRX, CTX, CHL, ANT_SEL>)
        requires
            CSD::high_infallible(),
            CPS::high_infallible(),
            CRX::high_infallible(),
            CTX::low_infallible(),
        ensures
            r.csd().level() == Some(true),
            r.csd().drives() == sat_inc(self.csd().drives()),
            r.cps().level() == Some(true),
            r.cps().drives() == sat_inc(self.cps().drives()),
            r.crx().level() == Some(true),
            r.crx().drives() == sat_inc(self.crx().drives()),
            r.ctx().level() == Some(false),
            r.ctx().drives() == sat_inc(self.ctx().drives()),
            r.chl() == self.chl(),
            r.ant_sel() == self.ant_sel(),
    {
        let mut s = self;
        let _ = s.csd.set_high();
        let _ = s.cps.set_high();
        let _ = s.crx.set_high();
        let _ = s.ctx.set_low();
        s.change_mode()
    }
}

#[allow(non_camel_case_types)]
impl<M: Mode, CSD: HighSettable, CPS: HighSettable, CRX, CTX: HighSettable, CHL, ANT_SEL> Sky66112<M, CSD, CPS, CRX, CTX, CHL, ANT_SEL> {
    /// Transmit bypassing the amplifier: CSD high, CPS high, CTX high. The lines are driven in this order, the
    /// others left alone; each named line is driven exactly once (the order of the calls
/// across lines is not stated); a line that can fail to be driven is not accepted.
    pub fn into_transmit_bypass_mode(self) -> (r: Sky66112<TransmitBypassMode, CSD, CPS, CRX, CTX, CHL, ANT_SEL>)
        requires
            CSD::high_infallible(),
            CPS::high_infallible(),
            CTX::high_infallible(),
        ensures
            r.csd().level() == Some(true),
            r.csd().drives() == sat_inc(self.csd().drives()),
            r.cps().level() == Some(true),
            r.cps().drives() == sat_inc(self.cps().drives()),
            r.crx() == self.crx(),
            r.ctx().level() == Some(true),
            r.ctx().drives() == sat_inc(self.ctx().drives()),
            r.chl() == self.chl(),
            r.ant_sel() == self.ant_sel(),
    {
        let mut s = self;
        let _ = s.csd.set_high();
        let _ = s.cps.set_high();
        let _ = s.ctx.set_high();
        s.change_mode()
    }
}

#[allow(non_camel_case_types)]
impl<M: Mode, CSD: HighSettable, CPS, CRX: LowSettable, CTX: LowSettable, CHL, ANT_SEL> Sky66112<M, CSD, CPS, CRX, CTX, CHL, ANT_SEL> {
    /// Sleep with the chip enabled: CSD high, CRX low, CTX low. The lines are driven in this order, the
    /// others left alone; each named line is driven exactly once (the order of the calls
/// across lines is not stated); a line that can fail to be driven is not accepted.
    pub fn into_sleep_mode2(self) -> (r: Sky66112<SleepMode, CSD, CPS, CRX, CTX, CHL, ANT_SEL>)
        requires
            CSD::high_infallible(),
            CRX::low_infallible(),
            CTX::low_infallible(),
        ensures
            r.csd().level() == Some(true),
            r.csd().drives() == sat_inc(self.csd().drives()),
            r.cps() == self.cps(),
            r.crx().level() == Some(false),
            r.crx().drives() == sat_inc(self.crx().drives()),
            r.ctx().level() == Some(false),
            r.ctx().drives() == sat_inc(self.ctx().drives()),
            r.chl() == self.chl(),
            r.ant_sel() == self.ant_sel(),
    {
        let mut s = self;
        let _ = s.csd.set_high();
        let _ = s.crx.set_low();
        let _ = s.ctx.set_low();
        s.change_mode()
    }
}

#[allow(non_camel_case_types)]
impl<M: Mode, CSD, CPS, CRX, CTX, CHL, ANT_SEL: LowSettable> Sky66112<M, CSD, CPS, CRX, CTX, CHL, ANT_SEL> {
    /// Uses antenna 1 (ANT_SEL low), the other lines left alone; a line that can fail
    /// to be driven is not accepted.
    pub fn use_antenna_1(&mut self)
        requires
            ANT_SEL::low_infallible(),
        ensures
            final(self).csd() == old(self).csd(),
            final(self).cps() == old(self).cps(),
            final(self).crx() == old(self).crx(),
            final(self).ctx() == old(self).ctx(),
            final(self).chl() == old(self).chl(),
            final(self).ant_sel().level() == Some(false),
            final(self).ant_sel().drives() == sat_inc(old(self).ant_sel().drives()),
    {
        let _ = self.ant_sel.set_low();
    }
}

#[allow(non_camel_case_types)]
impl<M: Mode, CSD, CPS, CRX, CTX, CHL, ANT_SEL: HighSettable> Sky66112<M, CSD, CPS, CRX, CTX, CHL, ANT_SEL> {
    /// Uses antenna 2 (ANT_SEL high), the other lines left alone; a line that can fail
    /// to be driven is not accepted.
    pub fn use_antenna_2(&mut self)
        requires
            ANT_SEL::high_infallible(),
        ensures
            final(self).csd() == old(self).csd(),
            final(self).cps() == old(self).cps(),
            final(self).crx() == old(self).crx(),
            final(self).ctx() == old(self).ctx(),
            final(self).chl() == old(self).chl(),
            final(self).ant_sel().level() == Some(true),
            final(self).ant_sel().drives() == sat_inc(old(self).ant_sel().drives()),
    {
        let _ = self.ant_sel.set_high();
    }
}

} // verus!
