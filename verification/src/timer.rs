//! Timer counter (TC) channels: the clock source of a channel, its mode register
//! and the compare value that makes it count down a given rate.
use vstd::prelude::*;
use core::marker::PhantomData;

verus! {

/// Clock source of a timer channel.
#[derive(Clone, Copy, Debug, PartialEq, Eq, Structural)]
pub enum ClockSource {
    MckDiv2,
    MckDiv8,
    MckDiv32,
    MckDiv128,
    Slck32768Hz,
}

/// The `TC_CMRx.TCCLKS` code of a clock source.
pub open spec fn spec_tcclks(source: ClockSource) -> u32 {
    match source {
        ClockSource::MckDiv2 => 0,
        ClockSource::MckDiv8 => 1,
        ClockSource::MckDiv32 => 2,
        ClockSource::MckDiv128 => 3,
        ClockSource::Slck32768Hz => 4,
    }
}

/// The divider of a master clock source.
pub open spec fn spec_div(source: ClockSource) -> u32 {
    match source {
        ClockSource::MckDiv2 => 2,
        ClockSource::MckDiv8 => 8,
        ClockSource::MckDiv32 => 32,
        _ => 128,
    }
}

impl ClockSource {
    /// The divider of the master clock (the slow clock has none: its frequency is
    /// set by hand).
    pub fn div(&self) -> (r: u32)
        requires
            *self != ClockSource::Slck32768Hz,
        ensures
            r == spec_div(*self),
    {
        match self {
            ClockSource::MckDiv2 => 2,
            ClockSource::MckDiv8 => 8,
            ClockSource::MckDiv32 => 32,
            _ => 128,
        }
    }

    /// The `TCCLKS` code.
    pub fn tcclks(&self) -> (r: u32)
        ensures r == spec_tcclks(*self),
    {
        match self {
            ClockSource::MckDiv2 => 0,
            ClockSource::MckDiv8 => 1,
            ClockSource::MckDiv32 => 2,
            ClockSource::MckDiv128 => 3,
            ClockSource::Slck32768Hz => 4,
        }
    }
}

/// A timer counter block of three channels.
pub struct TimerCounter<TC> {
    pub tc: TC,
}

impl<TC> TimerCounter<TC> {
    /// The block; the caller disables its write protection and its channels' clocks.
    pub fn new(tc: TC) -> (r: Self)
        ensures r.tc == tc,
    {
        TimerCounter { tc }
    }
}

/// `TC_CMRx.CPCTRG` (bit 14): restart on RC compare.
pub const CMR_CPCTRG: u32 = 0x0000_4000;
/// The RC compare flag and interrupt (`CPCS`, bit 4).
pub const CPCS: u32 = 0x0000_0010;

/// Channel `CH` of a timer counter block, counting at `FREQ` Hz from a master
/// clock of `freq` Hz.
pub struct TimerCounterChannel<TC, const CH: u8, const FREQ: u32> {
    /// The master clock frequency in Hz.
    pub freq: u32,
    pub source: ClockSource,
    /// `TC_CMRx`.
    pub cmr: u32,
    /// Whether the RC compare interrupt is enabled.
    pub interrupt: bool,
    pub block: PhantomData<TC>,
}

/// Whether the channel's clock source runs at `FREQ`: the master clock divided by
/// the source's divider, or 32768 Hz.
pub open spec fn spec_frequency_matches(source: ClockSource, freq: u32, target: u32) -> bool {
    if source == ClockSource::Slck32768Hz {
        target == 32768
    } else {
        target == freq / spec_div(source)
    }
}

impl<TC, const CH: u8, const FREQ: u32> TimerCounterChannel<TC, CH, FREQ> {
    /// A channel of a block clocked at `freq` Hz, from the master clock divided by 2.
    pub fn new(freq: u32) -> (r: Self)
        ensures r.freq == freq, r.source == ClockSource::MckDiv2, r.cmr == 0, !r.interrupt,
    {
        TimerCounterChannel { freq, source: ClockSource::MckDiv2, cmr: 0, interrupt: false, block: PhantomData }
    }

    /// Selects the clock source.
    pub fn clock_input(&mut self, source: ClockSource)
        ensures
            final(self).source == source,
            final(self).cmr == (old(self).cmr & !7u32) | spec_tcclks(source),
            final(self).freq == old(self).freq,
            final(self).interrupt == old(self).interrupt,
    {
        self.source = source;
        self.cmr = (self.cmr & !7u32) | source.tcclks();
    }

    /// Enables the RC compare interrupt (interrupt number block * 3 + channel).
    pub fn enable_interrupt(&mut self)
        ensures final(self).interrupt, final(self).cmr == old(self).cmr, final(self).source == old(self).source,
    {
        self.interrupt = true;
    }

    /// Disables the RC compare interrupt.
    pub fn disable_interrupt(&mut self)
        ensures !final(self).interrupt, final(self).cmr == old(self).cmr, final(self).source == old(self).source,
    {
        self.interrupt = false;
    }

    /// Whether the RC compare flag was set, given `TC_SRx` (reading clears it).
    pub fn clear_interrupt_flags(&self, sr: u32) -> (r: bool)
        ensures r == (sr & CPCS != 0),
    {
        sr & CPCS != 0
    }

    /// Whether the count down has expired, given `TC_SRx`.
    pub fn wait(&self, sr: u32) -> (r: bool)
        ensures r == (sr & CPCS != 0),
    {
        sr & CPCS != 0
    }

    /// Starts counting down at `rate` Hz (at most `FREQ`, which must be the clock
    /// source's frequency): the mode register restarts on RC compare and the
    /// returned number of cycles goes into `TC_RCx`; the caller clears the flags and
    /// enables and triggers the clock.
    pub fn start(&mut self, rate: u32) -> (cycles: u32)
        requires
            spec_frequency_matches(old(self).source, old(self).freq, FREQ),
            0 < rate <= FREQ,
        ensures
            cycles == FREQ / rate,
            final(self).cmr == (old(self).cmr & !7u32) | spec_tcclks(old(self).source) | CMR_CPCTRG,
            final(self).source == old(self).source,
            final(self).freq == old(self).freq,
            final(self).interrupt == old(self).interrupt,
    {
        let cycles = FREQ / rate;
        self.cmr = (self.cmr & !7u32) | self.source.tcclks() | CMR_CPCTRG;
        cycles
    }
}

/// The cycle counter extended to 64 bits: the number of times the 32-bit counter
/// has wrapped, and its last reading.
pub struct DwtTimer {
    overflows: u32,
    last_cnt: u32,
}

/// The 64-bit time stamp of a reading: the wraps above the reading.
pub open spec fn spec_ticks(overflows: u32, cyccnt: u32) -> u64 {
    (((overflows as u64) << 32u64) | (cyccnt as u64)) as u64
}

impl DwtTimer {
    /// The number of wraps counted.
    pub closed spec fn wraps(&self) -> u32 {
        self.overflows
    }

    /// The last reading.
    pub closed spec fn last(&self) -> u32 {
        self.last_cnt
    }

    /// No reading yet.
    pub fn new() -> (r: Self)
        ensures r.wraps() == 0, r.last() == 0,
    {
        DwtTimer { overflows: 0, last_cnt: 0 }
    }

    /// The time stamp of a new reading of the cycle counter: a reading not above
    /// the last one counts as a wrap (also an equal one).
    pub fn now(&mut self, cyccnt: u32) -> (r: u64)
        requires
            old(self).wraps() < u32::MAX,
        ensures
            final(self).wraps() == (if cyccnt <= old(self).last() { (old(self).wraps() + 1) as u32 } else { old(self).wraps() }),
            final(self).last() == cyccnt,
            r == spec_ticks(final(self).wraps(), cyccnt),
    {
        if cyccnt <= self.last_cnt {
            self.overflows = self.overflows + 1;
        }
        let ticks = ((self.overflows as u64) << 32u64) | (cyccnt as u64);
        self.last_cnt = cyccnt;
        ticks
    }
}

proof fn lemma_ticks_order(w1: u32, c1: u32, w2: u32, c2: u32)
    by (bit_vector)
    requires
        w1 < w2 || (w1 == w2 && c1 < c2),
    ensures
        (((w1 as u64) << 32u64) | (c1 as u64)) < (((w2 as u64) << 32u64) | (c2 as u64)),
{
}

/// The time stamps are strictly increasing: a new reading, whatever its value,
/// gives a later time stamp than the last one.
pub proof fn lemma_now_increases(overflows: u32, last: u32, cyccnt: u32)
    requires
        overflows < u32::MAX,
    ensures
        spec_ticks(overflows, last) < spec_ticks(
            if cyccnt <= last { (overflows + 1) as u32 } else { overflows },
            cyccnt,
        ),
{
    let w2: u32 = if cyccnt <= last { (overflows + 1) as u32 } else { overflows };
    lemma_ticks_order(overflows, last, w2, cyccnt);
}

} // verus!
