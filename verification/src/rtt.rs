//! Real-time timer (RTT): a 32-bit counter of prescaled slow clock periods (or of
//! the 1 Hz RTC clock) with an alarm. `RealTimeTimer` holds the mode (`RTT_MR`) and
//! alarm (`RTT_AR`) register values its operations produce.
use vstd::prelude::*;

verus! {

/// The slow clock frequency in Hz.
pub const SLCK_FREQ: u32 = 32_768;

// RTT_MR fields.
/// `RTPRES` (bits 0..=15): prescaler.
pub const MR_RTPRES_MASK: u32 = 0xFFFF;
/// `ALMIEN` (bit 16): alarm interrupt enable.
pub const MR_ALMIEN: u32 = 0x0001_0000;
/// `RTTINCIEN` (bit 17): prescaler increment interrupt enable.
pub const MR_RTTINCIEN: u32 = 0x0002_0000;
/// `RTTRST` (bit 18): restart the timer.
pub const MR_RTTRST: u32 = 0x0004_0000;
/// `RTTDIS` (bit 20): timer disabled.
pub const MR_RTTDIS: u32 = 0x0010_0000;
/// `RTC1HZ` (bit 24): count the 1 Hz RTC clock.
pub const MR_RTC1HZ: u32 = 0x0100_0000;
/// `RTT_SR.ALMS` (bit 0): alarm reached.
pub const SR_ALMS: u32 = 0x0000_0001;

/// A real-time timer with prescaler `PRESCALER` (0 standing for 2^16; 1 and 2 are
/// forbidden) counting the 1 Hz RTC clock if `RTC1HZ`.
pub struct RealTimeTimer<const PRESCALER: usize, const RTC1HZ: bool> {
    /// `RTT_MR`.
    pub mr: u32,
    /// `RTT_AR`.
    pub ar: u32,
}

/// `RTT_MR` after setup: disabled, prescaler interrupt off, the prescaler and the
/// clock selection set, restarted.
pub open spec fn spec_initial_mr(mr: u32, prescaler: u32, rtc1hz: bool) -> u32 {
    (((mr | MR_RTTDIS) & !MR_RTTINCIEN) & !(MR_RTPRES_MASK | MR_RTC1HZ))
        | (prescaler & MR_RTPRES_MASK) | (if rtc1hz { MR_RTC1HZ } else { 0 }) | MR_RTTRST
}

/// The period of one count in slow clock cycles: one second with the 1 Hz clock,
/// else the prescaler (2^16 for 0).
pub open spec fn spec_period(prescaler: usize, rtc1hz: bool) -> u32 {
    if rtc1hz {
        SLCK_FREQ
    } else if prescaler == 0 {
        65536
    } else {
        prescaler as u32
    }
}

/// The alarm value for a timeout in slow clock cycles: the number of whole periods.
pub open spec fn spec_alarm_value(timeout: u32, prescaler: usize, rtc1hz: bool) -> u32 {
    timeout / spec_period(prescaler, rtc1hz)
}

impl<const PRESCALER: usize, const RTC1HZ: bool> RealTimeTimer<PRESCALER, RTC1HZ> {
    /// Sets up the timer from the current mode register value.
    pub fn new(mr: u32) -> (r: Self)
        requires
            PRESCALER != 1 && PRESCALER != 2,
            PRESCALER <= 65535,
        ensures
            r.mr == spec_initial_mr(mr, PRESCALER as u32, RTC1HZ),
            r.ar == 0xFFFF_FFFF,
    {
        // Disabled and prescaler interrupt off while the prescaler changes.
        let mr = (mr | MR_RTTDIS) & !MR_RTTINCIEN;
        let mr = (mr & !(MR_RTPRES_MASK | MR_RTC1HZ)) | ((PRESCALER as u32) & MR_RTPRES_MASK)
            | (if RTC1HZ { MR_RTC1HZ } else { 0 }) | MR_RTTRST;
        RealTimeTimer { mr, ar: 0xFFFF_FFFF }
    }

    /// Enables the alarm interrupt.
    pub fn enable_alarm_interrupt(&mut self)
        ensures final(self).mr == old(self).mr | MR_ALMIEN, final(self).ar == old(self).ar,
    {
        self.mr = self.mr | MR_ALMIEN;
    }

    /// Enables the prescaler increment interrupt.
    pub fn enable_prescaler_interrupt(&mut self)
        ensures final(self).mr == old(self).mr | MR_RTTINCIEN, final(self).ar == old(self).ar,
    {
        self.mr = self.mr | MR_RTTINCIEN;
    }

    /// Disables the alarm interrupt.
    pub fn disable_alarm_interrupt(&mut self)
        ensures final(self).mr == old(self).mr & !MR_ALMIEN, final(self).ar == old(self).ar,
    {
        self.mr = self.mr & !MR_ALMIEN;
    }

    /// Disables the prescaler increment interrupt.
    pub fn disable_prescaler_interrupt(&mut self)
        ensures final(self).mr == old(self).mr & !MR_RTTINCIEN, final(self).ar == old(self).ar,
    {
        self.mr = self.mr & !MR_RTTINCIEN;
    }

    /// Clears both interrupt flags: the caller reads `RTT_SR`, and the timer restarts.
    pub fn clear_interrupt_flags(&mut self)
        ensures final(self).mr == old(self).mr | MR_RTTRST, final(self).ar == old(self).ar,
    {
        self.mr = self.mr | MR_RTTRST;
    }

    /// Starts a count down of `timeout` slow clock cycles: the alarm is set to the
    /// number of whole periods in it, with the interrupts kept as they were, and the
    /// timer is enabled and restarted. With the 1 Hz clock the prescaler must be
    /// 32767.
    pub fn start(&mut self, timeout: u32)
        requires
            RTC1HZ ==> PRESCALER == 32767,
            PRESCALER != 1 && PRESCALER != 2,
            PRESCALER <= 65535,
        ensures
            final(self).ar == spec_alarm_value(timeout, PRESCALER, RTC1HZ),
            final(self).mr == ((old(self).mr | MR_RTTDIS) & !MR_RTTDIS) | MR_RTTRST,
    {
        // Disabled while configuring.
        self.mr = self.mr | MR_RTTDIS;
        let almien = self.mr & MR_ALMIEN != 0;
        let rttincien = self.mr & MR_RTTINCIEN != 0;
        let period: u32 = if RTC1HZ {
            SLCK_FREQ
        } else if PRESCALER == 0 {
            65536
        } else {
            PRESCALER as u32
        };
        let alarmv = timeout / period;
        // The alarm interrupt is off while the alarm changes.
        let mr_before = self.mr;
        if almien {
            self.disable_alarm_interrupt();
        }
        if rttincien {
            self.disable_prescaler_interrupt();
        }
        self.ar = alarmv;
        if almien {
            self.enable_alarm_interrupt();
        }
        if rttincien {
            self.enable_prescaler_interrupt();
        }
        proof {
            let m = mr_before;
            assert(m & 0x0001_0000u32 != 0 ==> ((m & !0x0001_0000u32) | 0x0001_0000u32) == m) by (bit_vector);
            assert(m & 0x0002_0000u32 != 0 ==> ((m & !0x0002_0000u32) | 0x0002_0000u32) == m) by (bit_vector);
            assert((m & 0x0001_0000u32 != 0 && m & 0x0002_0000u32 != 0) ==>
                ((((m & !0x0001_0000u32) & !0x0002_0000u32) | 0x0001_0000u32) | 0x0002_0000u32) == m) by (bit_vector);
        }
        // Enable and restart.
        self.mr = self.mr & !MR_RTTDIS;
        self.mr = self.mr | MR_RTTRST;
    }

    /// Whether the alarm was reached, given `RTT_SR` (reading it clears the flag);
    /// if so the timer restarts, so that it is periodic.
    pub fn wait(&mut self, sr: u32) -> (r: bool)
        ensures
            r == (sr & SR_ALMS != 0),
            final(self).mr == (if r { old(self).mr | MR_RTTRST } else { old(self).mr }),
            final(self).ar == old(self).ar,
    {
        if sr & SR_ALMS != 0 {
            self.mr = self.mr | MR_RTTRST;
            true
        } else {
            false
        }
    }
}

} // verus!
