//! Analog-to-digital converter (ADC): the configuration registers that each
//! operation sets, per channel gain, offset, sequence and interrupt settings, and
//! the reading of conversion results from the status and data registers.
//!
//! `Adc` holds the values of the ADC's configuration registers; the caller writes
//! them to the peripheral. Channel enables and interrupt enables are held as the
//! channel status (`ADC_CHSR`) and interrupt mask (`ADC_IMR`) they produce.
use vstd::prelude::*;
use core::marker::PhantomData;
use crate::pdc::RxDma;

verus! {

/// Power saving between conversions.
#[derive(Clone, Copy, Debug, PartialEq, Eq, Structural)]
pub enum Powersaving {
    /// ADC core and reference voltage circuitry are kept on between conversions.
    Normal,
    /// Voltage reference is kept on, but the ADC core is off between conversions.
    FastWakeup,
    /// ADC core and voltage reference are off between conversions.
    Sleep,
}

/// Single-ended gain of a channel.
#[derive(Clone, Copy, Debug, PartialEq, Eq, Structural)]
pub enum SingleEndedGain {
    /// Gain 1 (field value 1).
    Gain1x,
    /// Gain 2 (field value 2).
    Gain2x,
    /// Gain 4 (field value 3).
    Gain4x,
}

/// The `ADC_CGR.GAINx` field value of a gain.
pub open spec fn spec_gain_code(gain: SingleEndedGain) -> u32 {
    match gain {
        SingleEndedGain::Gain1x => 1,
        SingleEndedGain::Gain2x => 2,
        SingleEndedGain::Gain4x => 3,
    }
}

/// The data bits (0..=11) of a channel data register.
fn conversion_data(cdr: u32) -> (r: u16)
    ensures
        r == (cdr & 0x0FFF) as u16,
{
    let data = cdr & 0x0FFF;
    proof {
        assert(data <= 0x0FFF) by (bit_vector)
            requires data == cdr & 0x0FFF;
    }
    data as u16
}

/// Channel 15 is the temperature sensor.
pub struct TempSensor {}

/// The channel of the temperature sensor.
pub const TEMP_SENSOR_CHANNEL: u8 = 15;

// Fields of ADC_MR.
/// `SLEEP` (bit 5).
pub const MR_SLEEP: u32 = 0x0000_0020;
/// `FWUP` (bit 6).
pub const MR_FWUP: u32 = 0x0000_0040;
/// `FREERUN` (bit 7).
pub const MR_FREERUN: u32 = 0x0000_0080;
/// `ANACH` (bit 23): gain and offset per channel.
pub const MR_ANACH: u32 = 0x0080_0000;
/// `USEQ` (bit 31): convert in the order of the sequence registers.
pub const MR_USEQ: u32 = 0x8000_0000;
/// `EMR.TAG` (bit 24): tag the last converted data with its channel.
pub const EMR_TAG: u32 = 0x0100_0000;
/// `ADC_CR.START` (bit 1): starts a conversion.
pub const CR_START: u32 = 0x0000_0002;
/// `PERIPH_PTCR.RXTDIS` (bit 1): disables the PDC receiver.
pub const PTCR_RXTDIS: u32 = 0x0000_0002;
/// `ISR.EOCAL` (bit 23): end of calibration.
pub const ISR_EOCAL: u32 = 0x0080_0000;

/// The ADC clock prescaler for a master clock frequency (Hz): ADC clock =
/// MCK / ((PRESCAL + 1) * 2) = 20 MHz.
pub open spec fn spec_prescaler(master_clock: u32) -> u32 {
    (master_clock / 40_000_000 - 1) as u32
}

/// `ADC_MR` after setup: the prescaler, a start-up time of 80 ADC clocks (`STARTUP`
/// 5), settling time of 5 clocks (`SETTLING` 1), per channel gain and offset
/// (`ANACH`), tracking time 10 (`TRACKTIM`) and transfer period 2 (`TRANSFER`).
pub open spec fn spec_initial_mr(master_clock: u32) -> u32 {
    (spec_prescaler(master_clock) << 8u32) | (5u32 << 16u32) | (1u32 << 20u32) | MR_ANACH
        | (10u32 << 24u32) | (2u32 << 28u32)
}

/// The configuration registers of the ADC.
#[derive(Clone, Copy, Debug, PartialEq, Eq, Structural)]
pub struct Adc {
    /// `ADC_MR`.
    pub mr: u32,
    /// `ADC_EMR`.
    pub emr: u32,
    /// `ADC_CGR`: two gain bits per channel.
    pub cgr: u32,
    /// `ADC_COR`: one offset bit per channel (bits 0..=15).
    pub cor: u32,
    /// `ADC_SEQR1`: sequence positions 1 to 8, four bits each.
    pub seqr1: u32,
    /// `ADC_SEQR2`: sequence positions 9 to 16, four bits each.
    pub seqr2: u32,
    /// Enabled channels (`ADC_CHSR`).
    pub chsr: u32,
    /// Channels whose end of conversion interrupts (`ADC_IMR`).
    pub imr: u32,
    /// Whether the temperature sensor is on (`ADC_ACR.TSON`).
    pub temp_sensor_on: bool,
}

/// The bit of channel `channel` in the channel and interrupt registers.
pub open spec fn spec_channel_bit(channel: u8) -> u32 {
    1u32 << (channel as u32)
}

/// `ADC_CGR` with channel `channel`'s gain set.
pub open spec fn spec_cgr_with_gain(cgr: u32, channel: u8, gain: SingleEndedGain) -> u32 {
    (cgr & !(3u32 << (2 * channel) as u32)) | ((spec_gain_code(gain) & 3) << (2 * channel) as u32)
}

/// A sequence register with position `slot` (0..=7) holding channel `ch`.
pub open spec fn spec_seqr_with(seqr: u32, slot: u32, ch: u8) -> u32 {
    (seqr & !(0xFu32 << (4 * slot) as u32)) | (((ch as u32) & 0xF) << (4 * slot) as u32)
}

/// The sequence registers after writing the first `n` channels of `channels`.
pub open spec fn spec_sequence(seqr1: u32, seqr2: u32, channels: Seq<u8>, n: int) -> (u32, u32)
    decreases n,
{
    if n <= 0 {
        (seqr1, seqr2)
    } else {
        let (s1, s2) = spec_sequence(seqr1, seqr2, channels, n - 1);
        let pos = n - 1;
        if pos < 8 {
            (spec_seqr_with(s1, pos as u32, channels[pos]), s2)
        } else {
            (s1, spec_seqr_with(s2, (pos - 8) as u32, channels[pos]))
        }
    }
}

/// `ADC_MR` with the power saving mode set: `SLEEP` clear for normal operation
/// (`FWUP` kept), else `SLEEP` set and `FWUP` set only for fast wake-up.
pub open spec fn spec_mr_with_powersaving(mr: u32, ps: Powersaving) -> u32 {
    match ps {
        Powersaving::Normal => mr & !MR_SLEEP,
        Powersaving::FastWakeup => mr | MR_SLEEP | MR_FWUP,
        Powersaving::Sleep => (mr | MR_SLEEP) & !MR_FWUP,
    }
}

impl Adc {
    /// The ADC configured after a software reset for a master clock of
    /// `master_clock` Hz (at least 40 MHz): 20 MHz ADC clock, the timings above, the
    /// temperature sensor on, no channel enabled and no interrupt.
    pub fn new(master_clock: u32) -> (r: Adc)
        requires
            master_clock >= 40_000_000,
        ensures
            r.mr == spec_initial_mr(master_clock),
            r.emr == 0 && r.cgr == 0 && r.cor == 0 && r.seqr1 == 0 && r.seqr2 == 0,
            r.chsr == 0 && r.imr == 0,
            r.temp_sensor_on,
    {
        let prescaler: u32 = master_clock / 40_000_000 - 1;
        // Prescaler and start-up time.
        let mut mr: u32 = (prescaler << 8u32) | (5u32 << 16u32);
        // Transfer period, tracking time and settling time.
        let transfer_period: u32 = 2;
        let tracking_time: u32 = 10;
        mr = mr | (transfer_period << 28u32) | (tracking_time << 24u32) | (1u32 << 20u32);
        // Gain and offset per channel.
        mr = mr | MR_ANACH;
        proof {
            let p = prescaler;
            assert(((p << 8u32) | (5u32 << 16u32) | (2u32 << 28u32) | (10u32 << 24u32) | (1u32 << 20u32) | 0x0080_0000u32)
                == ((p << 8u32) | (5u32 << 16u32) | (1u32 << 20u32) | 0x0080_0000u32 | (10u32 << 24u32) | (2u32 << 28u32)))
                by (bit_vector);
        }
        Adc { mr, emr: 0, cgr: 0, cor: 0, seqr1: 0, seqr2: 0, chsr: 0, imr: 0, temp_sensor_on: true }
    }

    /// Tags converted data with its channel number.
    pub fn enable_tags(&mut self)
        ensures *final(self) == (Adc { emr: old(self).emr | EMR_TAG, ..*old(self) }),
    {
        self.emr = self.emr | EMR_TAG;
    }

    /// Stops tagging converted data.
    pub fn disable_tags(&mut self)
        ensures *final(self) == (Adc { emr: old(self).emr & !EMR_TAG, ..*old(self) }),
    {
        self.emr = self.emr & !EMR_TAG;
    }

    /// The temperature sensor channel.
    pub fn temp_sensor(&self) -> (r: u8)
        ensures r == TEMP_SENSOR_CHANNEL,
    {
        TEMP_SENSOR_CHANNEL
    }

    /// Sets the order in which the channels are converted (used with the PDC), at
    /// most 15 positions.
    pub fn sequence(&mut self, channels: &[u8])
        requires
            channels.len() <= 15,
        ensures
            ({
                let (s1, s2) = spec_sequence(old(self).seqr1, old(self).seqr2, channels@, channels@.len() as int);
                *final(self) == Adc { seqr1: s1, seqr2: s2, ..*old(self) }
            }),
    {
        let n = channels.len();
        let mut pos: usize = 0;
        while pos < n
            invariant
                n == channels.len(),
                n <= 15,
                pos <= n,
                ({
                    let (s1, s2) = spec_sequence(old(self).seqr1, old(self).seqr2, channels@, pos as int);
                    *self == Adc { seqr1: s1, seqr2: s2, ..*old(self) }
                }),
            decreases n - pos,
        {
            let ch = channels[pos];
            if pos < 8 {
                let slot = pos as u32;
                self.seqr1 = (self.seqr1 & !(0xFu32 << (4 * slot))) | (((ch as u32) & 0xF) << (4 * slot));
            } else {
                let slot = (pos - 8) as u32;
                self.seqr2 = (self.seqr2 & !(0xFu32 << (4 * slot))) | (((ch as u32) & 0xF) << (4 * slot));
            }
            pos = pos + 1;
        }
    }

    /// Converts in the order of the sequence registers.
    pub fn enable_sequencing(&mut self)
        ensures *final(self) == (Adc { mr: old(self).mr | MR_USEQ, ..*old(self) }),
    {
        self.mr = self.mr | MR_USEQ;
    }

    /// Converts in channel number order (the default).
    pub fn disable_sequencing(&mut self)
        ensures *final(self) == (Adc { mr: old(self).mr & !MR_USEQ, ..*old(self) }),
    {
        self.mr = self.mr & !MR_USEQ;
    }

    /// Sets the power saving mode (normal by default).
    pub fn powersaving(&mut self, ps: Powersaving)
        ensures *final(self) == (Adc { mr: spec_mr_with_powersaving(old(self).mr, ps), ..*old(self) }),
    {
        match ps {
            Powersaving::Normal => self.mr = self.mr & !MR_SLEEP,
            Powersaving::FastWakeup => self.mr = self.mr | MR_SLEEP | MR_FWUP,
            Powersaving::Sleep => self.mr = (self.mr | MR_SLEEP) & !MR_FWUP,
        }
    }

    /// Sets the single-ended gain of a channel (0..=15); calibration must run after.
    pub fn gain(&mut self, channel: u8, gain: SingleEndedGain)
        requires
            channel < 16,
        ensures
            *final(self) == (Adc { cgr: spec_cgr_with_gain(old(self).cgr, channel, gain), ..*old(self) }),
    {
        let code: u32 = match gain {
            SingleEndedGain::Gain1x => 1,
            SingleEndedGain::Gain2x => 2,
            SingleEndedGain::Gain4x => 3,
        };
        let shift: u32 = 2 * channel as u32;
        self.cgr = (self.cgr & !(3u32 << shift)) | ((code & 3) << shift);
    }

    /// Sets or clears the offset of a channel (0..=15); calibration must run after.
    pub fn offset(&mut self, channel: u8, offset: bool)
        requires
            channel < 16,
        ensures
            *final(self) == (Adc {
                cor: if offset { old(self).cor | spec_channel_bit(channel) } else { old(self).cor & !spec_channel_bit(channel) },
                ..*old(self)
            }),
    {
        let bit: u32 = 1u32 << (channel as u32);
        if offset {
            self.cor = self.cor | bit;
        } else {
            self.cor = self.cor & !bit;
        }
    }

    /// Whether calibration has ended, given `ADC_ISR`.
    pub fn calibration_ready(&self, isr: u32) -> (r: bool)
        ensures r == (isr & ISR_EOCAL != 0),
    {
        isr & ISR_EOCAL != 0
    }

    /// Converts continuously.
    pub fn enable_freerunning(&mut self)
        ensures *final(self) == (Adc { mr: old(self).mr | MR_FREERUN, ..*old(self) }),
    {
        self.mr = self.mr | MR_FREERUN;
    }

    /// Converts on request only.
    pub fn disable_freerunning(&mut self)
        ensures *final(self) == (Adc { mr: old(self).mr & !MR_FREERUN, ..*old(self) }),
    {
        self.mr = self.mr & !MR_FREERUN;
    }

    /// Enables a channel (0..=15); enabled channels are calibrated.
    pub fn enable_channel(&mut self, channel: u8)
        requires
            channel < 16,
        ensures
            *final(self) == (Adc { chsr: old(self).chsr | spec_channel_bit(channel), ..*old(self) }),
    {
        self.chsr = self.chsr | (1u32 << (channel as u32));
    }

    /// Disables a channel (0..=15).
    pub fn disable_channel(&mut self, channel: u8)
        requires
            channel < 16,
        ensures
            *final(self) == (Adc { chsr: old(self).chsr & !spec_channel_bit(channel), ..*old(self) }),
    {
        self.chsr = self.chsr & !(1u32 << (channel as u32));
    }

    /// Enables the end of conversion interrupt of a channel (0..=15).
    pub fn enable_interrupts(&mut self, channel: u8)
        requires
            channel < 16,
        ensures
            *final(self) == (Adc { imr: old(self).imr | spec_channel_bit(channel), ..*old(self) }),
    {
        self.imr = self.imr | (1u32 << (channel as u32));
    }

    /// Disables the end of conversion interrupt of a channel (0..=15).
    pub fn disable_interrupts(&mut self, channel: u8)
        requires
            channel < 16,
        ensures
            *final(self) == (Adc { imr: old(self).imr & !spec_channel_bit(channel), ..*old(self) }),
    {
        self.imr = self.imr & !(1u32 << (channel as u32));
    }

    /// The converted value of a channel (0..=15) whose interrupt is enabled and whose
    /// end of conversion flag is set in `isr`: the data bits (0..=11) of its data
    /// register `cdr`; none otherwise.
    pub fn service_interrupt_ready(&self, channel: u8, isr: u32, cdr: u32) -> (r: Option<u16>)
        requires
            channel < 16,
        ensures
            r == (if self.imr & spec_channel_bit(channel) != 0 && isr & spec_channel_bit(channel) != 0 {
                Some((cdr & 0x0FFF) as u16)
            } else {
                None::<u16>
            }),
    {
        let bit: u32 = 1u32 << (channel as u32);
        if self.imr & bit == 0 {
            return None;
        }
        if isr & bit != 0 {
            Some(conversion_data(cdr))
        } else {
            None
        }
    }

    /// One poll of a synchronous conversion on `channel` (0..=15), after `START` was
    /// written to `ADC_CR`: none while the channel's end of conversion flag is clear
    /// in `isr` (the caller polls again), else the data bits (0..=11) of its data
    /// register `cdr`.
    pub fn synchronous_convert(&self, channel: u8, isr: u32, cdr: u32) -> (r: Option<u16>)
        requires
            channel < 16,
        ensures
            r == (if isr & spec_channel_bit(channel) != 0 {
                Some((cdr & 0x0FFF) as u16)
            } else {
                None::<u16>
            }),
    {
        let bit: u32 = 1u32 << (channel as u32);
        if isr & bit != 0 {
            Some(conversion_data(cdr))
        } else {
            None
        }
    }

    /// Hands the ADC to the PDC for one capture of the enabled (or sequenced)
    /// channels.
    pub fn with_pdc(self) -> (r: AdcDma<SingleSequence>)
        ensures r.payload.adc == self,
    {
        RxDma { payload: AdcPayload { adc: self, mode: PhantomData } }
    }

    /// Hands the ADC to the PDC for continuous (free running) capture.
    pub fn with_continuous_pdc(self) -> (r: AdcDma<Continuous>)
        ensures r.payload.adc == self,
    {
        RxDma { payload: AdcPayload { adc: self, mode: PhantomData } }
    }
}

/// How an interrupt driven conversion mode sets the ADC up when conversions start,
/// when one completes and when they stop.
pub trait ConversionMode {
    spec fn spec_on_start(adc: Adc) -> Adc;
    spec fn spec_on_complete(adc: Adc, channel: u8) -> Adc;
    spec fn spec_on_stop(adc: Adc, channel: u8) -> Adc;

    fn on_start(adc: &mut Adc)
        ensures *final(adc) == Self::spec_on_start(*old(adc));

    fn on_complete(adc: &mut Adc, channel: u8)
        requires channel < 16,
        ensures *final(adc) == Self::spec_on_complete(*old(adc), channel);

    fn on_stop(adc: &mut Adc, channel: u8)
        requires channel < 16,
        ensures *final(adc) == Self::spec_on_stop(*old(adc), channel);
}

/// One conversion per start: the channel's interrupt is disabled when it completes.
pub struct SingleConversion;

/// Continuous conversion: free running while started.
pub struct FreeRunning;

impl ConversionMode for SingleConversion {
    open spec fn spec_on_start(adc: Adc) -> Adc {
        adc
    }

    open spec fn spec_on_complete(adc: Adc, channel: u8) -> Adc {
        Adc { imr: adc.imr & !spec_channel_bit(channel), ..adc }
    }

    open spec fn spec_on_stop(adc: Adc, channel: u8) -> Adc {
        adc
    }

    fn on_start(adc: &mut Adc) {
    }

    fn on_complete(adc: &mut Adc, channel: u8) {
        adc.disable_interrupts(channel);
    }

    fn on_stop(adc: &mut Adc, channel: u8) {
    }
}

impl ConversionMode for FreeRunning {
    open spec fn spec_on_start(adc: Adc) -> Adc {
        Adc { mr: adc.mr | MR_FREERUN, ..adc }
    }

    open spec fn spec_on_complete(adc: Adc, channel: u8) -> Adc {
        adc
    }

    open spec fn spec_on_stop(adc: Adc, channel: u8) -> Adc {
        Adc { imr: adc.imr & !spec_channel_bit(channel), mr: adc.mr & !MR_FREERUN, ..adc }
    }

    fn on_start(adc: &mut Adc) {
        adc.enable_freerunning();
    }

    fn on_complete(adc: &mut Adc, channel: u8) {
    }

    fn on_stop(adc: &mut Adc, channel: u8) {
        adc.disable_interrupts(channel);
        adc.disable_freerunning();
    }
}

/// An ADC whose results are read when its interrupt is served, in conversion mode
/// `C`.
pub struct InterruptAdc<C> {
    pub adc: Adc,
    pub mode: PhantomData<C>,
}

impl<C: ConversionMode> InterruptAdc<C> {
    /// The ADC in interrupt mode `C`.
    pub fn from(adc: Adc) -> (r: Self)
        ensures r.adc == adc,
    {
        InterruptAdc { adc, mode: PhantomData }
    }

    /// The converted value of a channel if its interrupt is enabled and pending (see
    /// `Adc::service_interrupt_ready`); when there is one, the mode's completion step
    /// runs.
    pub fn service_interrupt_ready(&mut self, channel: u8, isr: u32, cdr: u32) -> (r: Option<u16>)
        requires
            channel < 16,
        ensures
            ({
                let ready = old(self).adc.imr & spec_channel_bit(channel) != 0 && isr & spec_channel_bit(channel) != 0;
                &&& r == (if ready { Some((cdr & 0x0FFF) as u16) } else { None::<u16> })
                &&& final(self).adc == (if ready { C::spec_on_complete(old(self).adc, channel) } else { old(self).adc })
            }),
    {
        match self.adc.service_interrupt_ready(channel, isr, cdr) {
            Some(res) => {
                C::on_complete(&mut self.adc, channel);
                Some(res)
            },
            None => None,
        }
    }

    /// Starts conversions on a channel (which must be enabled): the mode's start step,
    /// the channel's interrupt, and the start command: the returned `ADC_CR` value,
    /// `START`, which the caller writes.
    pub fn start_conversion(&mut self, channel: u8) -> (r: u32)
        requires
            channel < 16,
        ensures
            final(self).adc == (Adc {
                imr: C::spec_on_start(old(self).adc).imr | spec_channel_bit(channel),
                ..C::spec_on_start(old(self).adc)
            }),
            r == CR_START,
    {
        C::on_start(&mut self.adc);
        self.adc.enable_interrupts(channel);
        CR_START
    }

    /// Stops conversions on a channel: the mode's stop step.
    pub fn stop_conversion(&mut self, channel: u8)
        requires
            channel < 16,
        ensures
            final(self).adc == C::spec_on_stop(old(self).adc, channel),
    {
        C::on_stop(&mut self.adc, channel);
    }

    /// Back to the plain ADC.
    pub fn revert(self) -> (r: Adc)
        ensures r == self.adc,
    {
        self.adc
    }
}

/// PDC capture mode: continuous.
pub struct Continuous;

/// PDC capture mode: one sample of each channel.
pub struct SingleSequence;

/// The ADC as a PDC receiver in capture mode `MODE`.
pub struct AdcPayload<MODE> {
    pub adc: Adc,
    pub mode: PhantomData<MODE>,
}

/// The ADC receiving through the PDC.
pub type AdcDma<MODE> = RxDma<AdcPayload<MODE>>;

impl<MODE> RxDma<AdcPayload<MODE>> {
    /// Back to the plain ADC, its settings unchanged, with the `PERIPH_PTCR` value
    /// that stops the PDC receiver in case it still runs (`RXTDIS`), which the caller
    /// writes.
    pub fn revert(self) -> (r: (Adc, u32))
        ensures
            r.0 == self.payload.adc,
            r.1 == PTCR_RXTDIS,
    {
        (self.payload.adc, PTCR_RXTDIS)
    }
}

} // verus!

verus! {

proof fn lemma_two_bit_field(cgr: u32, c: u32, o: u32, code: u32)
    by (bit_vector)
    requires
        c < 16,
        o < 16,
        c != o,
        code <= 3,
    ensures
        ((((cgr & !(3u32 << (2 * c))) | ((code & 3) << (2 * c))) >> (2 * c)) & 3) == code,
        ((((cgr & !(3u32 << (2 * c))) | ((code & 3) << (2 * c))) >> (2 * o)) & 3) == ((cgr >> (2 * o)) & 3),
{
}

/// Setting the gain of one channel gives that channel the gain's field value and
/// leaves the gain of every other channel as it was.
pub proof fn lemma_gain_sets_only_its_channel(cgr: u32, channel: u8, gain: SingleEndedGain, other: u8)
    requires
        channel < 16,
        other < 16,
        channel != other,
    ensures
        (spec_cgr_with_gain(cgr, channel, gain) >> (2 * channel) as u32) & 3 == spec_gain_code(gain),
        (spec_cgr_with_gain(cgr, channel, gain) >> (2 * other) as u32) & 3 == (cgr >> (2 * other) as u32) & 3,
{
    lemma_two_bit_field(cgr, channel as u32, other as u32, spec_gain_code(gain));
}

} // verus!
