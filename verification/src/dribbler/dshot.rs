//! DSHOT, the digital protocol to brushless motor controllers (ESCs).
//!
//! A frame is `vvvv_vvvv_vvvt_cccc`: an 11 bit value (0 disarms, 1..=47 are special
//! commands, 48..=2047 throttle 0..2000), a telemetry request bit and a checksum, the
//! exclusive or of the three other nibbles. With bidirectional DSHOT the checksum is
//! inverted and the ESC answers with a GCR coded frame holding its electrical
//! period (`eeem_mmmm_mmmm_cccc`: period = mantissa << exponent).
use vstd::prelude::*;
use core::marker::PhantomData;
use super::Dribbler;

verus! {

/// DSHOT commands.
#[derive(Clone, Copy, Debug, PartialEq, Eq, Structural)]
pub enum DshotCommand {
    /// Disarm the motor.
    Disarm,
    Beep1,
    Beep2,
    Beep3,
    Beep4,
    Beep5,
    /// Request ESC info.
    EscInfo,
    SpinDirection1,
    SpinDirection2,
    Disable3DMode,
    Enable3DMode,
    SettingsRequest,
    SaveSettings,
    EnableExtendedTelemetry,
    DisableExtendedTelemetry,
    SpinDirectionNormal,
    SpinDirectionReversed,
    Led0On,
    Led1On,
    Led2On,
    Led3On,
    Led0Off,
    Led1Off,
    Led2Off,
    Led3Off,
    AudioStreamModeToggle,
    SilentModeToggle,
    /// Disables commands 42..=47.
    DisableSignalLineTelemetry,
    /// Enables commands 42..=47.
    EnableSignalLineTelemetry,
    SignalLineContinuousErpmTelemetry,
    SignalLineContinuousErpmPeriodTelemetry,
    SignalLineTemperatueTelemetry,
    SignalLineVoltageTelemetry,
    SignalLineCurrentTelemetry,
    SignalLineConsumptionTelemetry,
    SignalLineErpmTelemetry,
    SignalLineErpmPeriodTelemetry,
    /// Throttle value in 0..2000.
    Throttle(u16),
}

/// The 11 bit value of a command.
pub open spec fn spec_command_value(command: DshotCommand) -> u16 {
    match command {
        DshotCommand::Throttle(v) => (v + 48) as u16,
        DshotCommand::Disarm => 0,
        DshotCommand::Beep1 => 1,
        DshotCommand::Beep2 => 2,
        DshotCommand::Beep3 => 3,
        DshotCommand::Beep4 => 4,
        DshotCommand::Beep5 => 5,
        DshotCommand::EscInfo => 6,
        DshotCommand::SpinDirection1 => 7,
        DshotCommand::SpinDirection2 => 8,
        DshotCommand::Disable3DMode => 9,
        DshotCommand::Enable3DMode => 10,
        DshotCommand::SettingsRequest => 11,
        DshotCommand::SaveSettings => 12,
        DshotCommand::EnableExtendedTelemetry => 13,
        DshotCommand::DisableExtendedTelemetry => 14,
        DshotCommand::SpinDirectionNormal => 20,
        DshotCommand::SpinDirectionReversed => 21,
        DshotCommand::Led0On => 22,
        DshotCommand::Led1On => 23,
        DshotCommand::Led2On => 24,
        DshotCommand::Led3On => 25,
        DshotCommand::Led0Off => 26,
        DshotCommand::Led1Off => 27,
        DshotCommand::Led2Off => 28,
        DshotCommand::Led3Off => 29,
        DshotCommand::AudioStreamModeToggle => 30,
        DshotCommand::SilentModeToggle => 31,
        DshotCommand::DisableSignalLineTelemetry => 32,
        DshotCommand::EnableSignalLineTelemetry => 33,
        DshotCommand::SignalLineContinuousErpmTelemetry => 34,
        DshotCommand::SignalLineContinuousErpmPeriodTelemetry => 35,
        DshotCommand::SignalLineTemperatueTelemetry => 42,
        DshotCommand::SignalLineVoltageTelemetry => 43,
        DshotCommand::SignalLineCurrentTelemetry => 44,
        DshotCommand::SignalLineConsumptionTelemetry => 45,
        DshotCommand::SignalLineErpmTelemetry => 46,
        DshotCommand::SignalLineErpmPeriodTelemetry => 47,
    }
}

/// The numbers the DSHOT protocol gives its special commands (0 disarms; the spin
/// direction commands are 20 for normal and 21 for reversed; the signal line
/// telemetry requests are 42..=47), and a throttle `t` is sent as `t + 48`, above
/// every command.
pub proof fn lemma_dshot_command_numbers(t: u16)
    requires
        t < 2000,
    ensures
        spec_command_value(DshotCommand::Disarm) == 0,
        spec_command_value(DshotCommand::Beep1) == 1,
        spec_command_value(DshotCommand::Beep2) == 2,
        spec_command_value(DshotCommand::Beep3) == 3,
        spec_command_value(DshotCommand::Beep4) == 4,
        spec_command_value(DshotCommand::Beep5) == 5,
        spec_command_value(DshotCommand::EscInfo) == 6,
        spec_command_value(DshotCommand::SpinDirection1) == 7,
        spec_command_value(DshotCommand::SpinDirection2) == 8,
        spec_command_value(DshotCommand::Disable3DMode) == 9,
        spec_command_value(DshotCommand::Enable3DMode) == 10,
        spec_command_value(DshotCommand::SettingsRequest) == 11,
        spec_command_value(DshotCommand::SaveSettings) == 12,
        spec_command_value(DshotCommand::EnableExtendedTelemetry) == 13,
        spec_command_value(DshotCommand::DisableExtendedTelemetry) == 14,
        spec_command_value(DshotCommand::SpinDirectionNormal) == 20,
        spec_command_value(DshotCommand::SpinDirectionReversed) == 21,
        spec_command_value(DshotCommand::Led0On) == 22,
        spec_command_value(DshotCommand::Led1On) == 23,
        spec_command_value(DshotCommand::Led2On) == 24,
        spec_command_value(DshotCommand::Led3On) == 25,
        spec_command_value(DshotCommand::Led0Off) == 26,
        spec_command_value(DshotCommand::Led1Off) == 27,
        spec_command_value(DshotCommand::Led2Off) == 28,
        spec_command_value(DshotCommand::Led3Off) == 29,
        spec_command_value(DshotCommand::AudioStreamModeToggle) == 30,
        spec_command_value(DshotCommand::SilentModeToggle) == 31,
        spec_command_value(DshotCommand::DisableSignalLineTelemetry) == 32,
        spec_command_value(DshotCommand::EnableSignalLineTelemetry) == 33,
        spec_command_value(DshotCommand::SignalLineContinuousErpmTelemetry) == 34,
        spec_command_value(DshotCommand::SignalLineContinuousErpmPeriodTelemetry) == 35,
        spec_command_value(DshotCommand::SignalLineTemperatueTelemetry) == 42,
        spec_command_value(DshotCommand::SignalLineVoltageTelemetry) == 43,
        spec_command_value(DshotCommand::SignalLineCurrentTelemetry) == 44,
        spec_command_value(DshotCommand::SignalLineConsumptionTelemetry) == 45,
        spec_command_value(DshotCommand::SignalLineErpmTelemetry) == 46,
        spec_command_value(DshotCommand::SignalLineErpmPeriodTelemetry) == 47,
        spec_command_value(DshotCommand::Throttle(t)) == t + 48,
        spec_command_value(DshotCommand::Throttle(t)) >= 48,
{
}

/// Whether a command has a value: a throttle must be below 2000.
pub open spec fn spec_valid_command(command: DshotCommand) -> bool {
    match command {
        DshotCommand::Throttle(v) => v < 2000,
        _ => true,
    }
}

/// The 11 bit value of a command (a throttle below 2000).
pub fn command_value(command: DshotCommand) -> (r: u16)
    requires
        spec_valid_command(command),
    ensures
        r == spec_command_value(command),
        r < 2048,
{
    match command {
        DshotCommand::Throttle(v) => v + 48,
        DshotCommand::Disarm => 0,
        DshotCommand::Beep1 => 1,
        DshotCommand::Beep2 => 2,
        DshotCommand::Beep3 => 3,
        DshotCommand::Beep4 => 4,
        DshotCommand::Beep5 => 5,
        DshotCommand::EscInfo => 6,
        DshotCommand::SpinDirection1 => 7,
        DshotCommand::SpinDirection2 => 8,
        DshotCommand::Disable3DMode => 9,
        DshotCommand::Enable3DMode => 10,
        DshotCommand::SettingsRequest => 11,
        DshotCommand::SaveSettings => 12,
        DshotCommand::EnableExtendedTelemetry => 13,
        DshotCommand::DisableExtendedTelemetry => 14,
        DshotCommand::SpinDirectionNormal => 20,
        DshotCommand::SpinDirectionReversed => 21,
        DshotCommand::Led0On => 22,
        DshotCommand::Led1On => 23,
        DshotCommand::Led2On => 24,
        DshotCommand::Led3On => 25,
        DshotCommand::Led0Off => 26,
        DshotCommand::Led1Off => 27,
        DshotCommand::Led2Off => 28,
        DshotCommand::Led3Off => 29,
        DshotCommand::AudioStreamModeToggle => 30,
        DshotCommand::SilentModeToggle => 31,
        DshotCommand::DisableSignalLineTelemetry => 32,
        DshotCommand::EnableSignalLineTelemetry => 33,
        DshotCommand::SignalLineContinuousErpmTelemetry => 34,
        DshotCommand::SignalLineContinuousErpmPeriodTelemetry => 35,
        DshotCommand::SignalLineTemperatueTelemetry => 42,
        DshotCommand::SignalLineVoltageTelemetry => 43,
        DshotCommand::SignalLineCurrentTelemetry => 44,
        DshotCommand::SignalLineConsumptionTelemetry => 45,
        DshotCommand::SignalLineErpmTelemetry => 46,
        DshotCommand::SignalLineErpmPeriodTelemetry => 47,
    }
}

/// A frame to the ESC. Special commands (1..=47) always carry the telemetry bit,
/// whatever `telemetry` says.
#[derive(Clone, Copy, Debug, PartialEq, Eq, Structural)]
pub struct DshotFrame {
    pub command: DshotCommand,
    pub telemetry: bool,
}

/// The exclusive or of the three upper nibbles of a 16 bit word, in the low nibble.
pub open spec fn spec_checksum(value: u16) -> u16 {
    let csum = (value >> 8u16) ^ value;
    ((csum >> 4u16) ^ csum) & 0xF
}

/// The value and telemetry bits of the frame carrying the 11 bit value `v`: the
/// value shifted left by five, with bit 4 set for special commands.
pub open spec fn spec_frame_bits(v: u16) -> u16 {
    if v < 48 && v != 0 {
        ((v << 5u16) | (1u16 << 4u16)) as u16
    } else {
        (v << 5u16) as u16
    }
}

/// The 16 bit frame: value, telemetry bit and checksum.
pub open spec fn spec_frame_value(frame: DshotFrame) -> u16 {
    let bits = spec_frame_bits(spec_command_value(frame.command));
    bits | spec_checksum(bits)
}

/// The 16 bit frame (a throttle below 2000).
pub fn frame_value(frame: DshotFrame) -> (r: u16)
    requires
        spec_valid_command(frame.command),
    ensures
        r == spec_frame_value(frame),
{
    let value = command_value(frame.command);
    let value = if value < 48 && value != 0 {
        (value << 5u16) | (1u16 << 4u16)
    } else {
        value << 5u16
    };
    // Exclusive or of the bytes, then of the nibbles.
    let csum = (value >> 8u16) ^ value;
    let csum = ((csum >> 4u16) ^ csum) & 0xF;
    value | csum
}

/// DSHOT speeds.
#[derive(Clone, Copy, Debug, PartialEq, Eq, Structural)]
pub enum Version {
    Dshot150,
    Dshot300,
    Dshot600,
    Dshot1200,
}

/// The bit rate of a DSHOT version in Hz.
pub open spec fn spec_version_frequency(version: Version) -> u32 {
    match version {
        Version::Dshot150 => 150_000,
        Version::Dshot300 => 300_000,
        Version::Dshot600 => 600_000,
        Version::Dshot1200 => 1_200_000,
    }
}

impl Version {
    /// The bit rate in Hz.
    pub fn frequency(&self) -> (r: u32)
        ensures r == spec_version_frequency(*self),
    {
        match self {
            Version::Dshot150 => 150_000,
            Version::Dshot300 => 300_000,
            Version::Dshot600 => 600_000,
            Version::Dshot1200 => 1_200_000,
        }
    }
}

/// Telemetry an ESC sends. The voltage is in quarter volts (two fractional bits).
#[derive(Clone, Copy, Debug, PartialEq, Eq, Structural)]
pub enum Telemetry {
    Erpm(u16),
    Temperature(u8),
    Voltage(u8),
    Current(u8),
    Debug1(u8),
    Debug2(u8),
    Debug3(u8),
    StateEvent(u8),
}

/// The nibble that a 5 bit GCR code stands for.
pub open spec fn spec_decode_gcr(value: u32) -> Option<u8> {
    let code = value & 0x1F;
    if code == 0x19 { Some(0x0u8) }
    else if code == 0x1B { Some(0x1u8) }
    else if code == 0x12 { Some(0x2u8) }
    else if code == 0x13 { Some(0x3u8) }
    else if code == 0x1D { Some(0x4u8) }
    else if code == 0x15 { Some(0x5u8) }
    else if code == 0x16 { Some(0x6u8) }
    else if code == 0x17 { Some(0x7u8) }
    else if code == 0x1A { Some(0x8u8) }
    else if code == 0x09 { Some(0x9u8) }
    else if code == 0x0A { Some(0xAu8) }
    else if code == 0x0B { Some(0xBu8) }
    else if code == 0x1E { Some(0xCu8) }
    else if code == 0x0D { Some(0xDu8) }
    else if code == 0x0E { Some(0xEu8) }
    else if code == 0x0F { Some(0xFu8) }
    else { None }
}

/// The GCR code (5 bits) of a nibble.
pub open spec fn spec_encode_gcr(nibble: u8) -> u32 {
    if nibble == 0x0 { 0x19 }
    else if nibble == 0x1 { 0x1B }
    else if nibble == 0x2 { 0x12 }
    else if nibble == 0x3 { 0x13 }
    else if nibble == 0x4 { 0x1D }
    else if nibble == 0x5 { 0x15 }
    else if nibble == 0x6 { 0x16 }
    else if nibble == 0x7 { 0x17 }
    else if nibble == 0x8 { 0x1A }
    else if nibble == 0x9 { 0x09 }
    else if nibble == 0xA { 0x0A }
    else if nibble == 0xB { 0x0B }
    else if nibble == 0xC { 0x1E }
    else if nibble == 0xD { 0x0D }
    else if nibble == 0xE { 0x0E }
    else { 0x0F }
}

/// Decodes the 5 low bits of `value` as a GCR code.
pub fn decode_gcr(value: u32) -> (r: Option<u8>)
    ensures
        r == spec_decode_gcr(value),
        r matches Some(n) ==> n < 16,
{
    let code = value & 0x1F;
    if code == 0x19 { Some(0x0) }
    else if code == 0x1B { Some(0x1) }
    else if code == 0x12 { Some(0x2) }
    else if code == 0x13 { Some(0x3) }
    else if code == 0x1D { Some(0x4) }
    else if code == 0x15 { Some(0x5) }
    else if code == 0x16 { Some(0x6) }
    else if code == 0x17 { Some(0x7) }
    else if code == 0x1A { Some(0x8) }
    else if code == 0x09 { Some(0x9) }
    else if code == 0x0A { Some(0xA) }
    else if code == 0x0B { Some(0xB) }
    else if code == 0x1E { Some(0xC) }
    else if code == 0x0D { Some(0xD) }
    else if code == 0x0E { Some(0xE) }
    else if code == 0x0F { Some(0xF) }
    else { None }
}

/// The 16 bit word that the four GCR codes of `bits` (lowest code lowest nibble)
/// stand for, where each is valid.
pub open spec fn spec_gcr_word(bits: u32) -> Option<u16> {
    match (spec_decode_gcr(bits), spec_decode_gcr(bits >> 5u32), spec_decode_gcr(bits >> 10u32), spec_decode_gcr(bits >> 15u32)) {
        (Some(n0), Some(n1), Some(n2), Some(n3)) =>
            Some(((n0 as u16) | ((n1 as u16) << 4u16) | ((n2 as u16) << 8u16) | ((n3 as u16) << 12u16)) as u16),
        _ => None,
    }
}

/// The 12 bit payload of a received frame: the line bits are turned back into GCR
/// codes (each bit is the change between neighbouring line bits), decoded, and the
/// checksum nibble must make the exclusive or of all four nibbles 0xF.
pub open spec fn spec_decode_telemetry_bits(bits: u32) -> Option<u16> {
    match spec_gcr_word(bits ^ (bits >> 1u32)) {
        Some(value) => if spec_checksum(value) == 0xF { Some(value >> 4u16) } else { None },
        None => None,
    }
}

/// Decodes the 21 received bits of a telemetry frame into its 12 bit payload.
pub fn decode_telemetry_bits(bits: u32) -> (r: Option<u16>)
    ensures
        r == spec_decode_telemetry_bits(bits),
{
    let bits = bits ^ (bits >> 1u32);
    let n0 = match decode_gcr(bits) { Some(n) => n, None => return None };
    let n1 = match decode_gcr(bits >> 5u32) { Some(n) => n, None => return None };
    let n2 = match decode_gcr(bits >> 10u32) { Some(n) => n, None => return None };
    let n3 = match decode_gcr(bits >> 15u32) { Some(n) => n, None => return None };
    let value: u16 = (n0 as u16) | ((n1 as u16) << 4u16) | ((n2 as u16) << 8u16) | ((n3 as u16) << 12u16);
    let csum = (value >> 8u16) ^ value;
    let csum = ((csum >> 4u16) ^ csum) & 0xF;
    if csum != 0xF {
        return None;
    }
    Some(value >> 4u16)
}

/// The electrical period in the payload `eeem_mmmm_mmmm`: the mantissa shifted left
/// by the exponent.
pub open spec fn spec_period(value: u16) -> u16 {
    ((value & 0x1FF) << ((value & 0xE00) >> 9u16)) as u16
}

/// Decodes a telemetry frame (not extended) into the electrical period.
pub fn decode_telemetry(bits: u32) -> (r: Option<u16>)
    ensures
        r == (match spec_decode_telemetry_bits(bits) {
            Some(value) => Some(spec_period(value)),
            None => None::<u16>,
        }),
{
    let value = match decode_telemetry_bits(bits) { Some(v) => v, None => return None };
    let shift = (value & 0xE00) >> 9u16;
    proof {
        assert(shift <= 7) by (bit_vector)
            requires shift == (value & 0xE00) >> 9u16;
    }
    Some((value & 0x1FF) << shift)
}

/// What an extended telemetry payload holds: the upper nibble tells the kind (an
/// even value from 2 up), the low byte the value; an odd or zero kind is a period.
pub open spec fn spec_extended_telemetry(value: u16) -> Telemetry {
    let low = (value & 0x0FF) as u8;
    let kind = value & 0xF00;
    if kind == 0x200 { Telemetry::Temperature(low) }
    else if kind == 0x400 { Telemetry::Voltage(low) }
    else if kind == 0x600 { Telemetry::Current(low) }
    else if kind == 0x800 { Telemetry::Debug1(low) }
    else if kind == 0xA00 { Telemetry::Debug2(low) }
    else if kind == 0xC00 { Telemetry::Debug3(low) }
    else if kind == 0xE00 { Telemetry::StateEvent(low) }
    else { Telemetry::Erpm(spec_period(value)) }
}

/// Decodes an extended telemetry frame.
pub fn decode_extended_telemetry(bits: u32) -> (r: Option<Telemetry>)
    ensures
        r == (match spec_decode_telemetry_bits(bits) {
            Some(value) => Some(spec_extended_telemetry(value)),
            None => None::<Telemetry>,
        }),
{
    let value = match decode_telemetry_bits(bits) { Some(v) => v, None => return None };
    let masked = value & 0x0FF;
    let shift = (value & 0xE00) >> 9u16;
    proof {
        assert(masked <= 0xFF && shift <= 7) by (bit_vector)
            requires masked == value & 0x0FF, shift == (value & 0xE00) >> 9u16;
    }
    let low = masked as u8;
    let kind = value & 0xF00;
    if kind == 0x200 { Some(Telemetry::Temperature(low)) }
    else if kind == 0x400 { Some(Telemetry::Voltage(low)) }
    else if kind == 0x600 { Some(Telemetry::Current(low)) }
    else if kind == 0x800 { Some(Telemetry::Debug1(low)) }
    else if kind == 0xA00 { Some(Telemetry::Debug2(low)) }
    else if kind == 0xC00 { Some(Telemetry::Debug3(low)) }
    else if kind == 0xE00 { Some(Telemetry::StateEvent(low)) }
    else { Some(Telemetry::Erpm((value & 0x1FF) << shift)) }
}

/// Largest integer part of a state machine clock divider.
pub const DIVIDER_MAX: u32 = 65536;

/// Whether the system clock can be divided down to `bit_freq` times the wanted
/// rate: the integer part within 1..=65536 (65536 only without fraction) and the
/// fraction computable in 32 bits.
pub open spec fn spec_divider_possible(clock_freq: u32, bit_freq: u32) -> bool {
    &&& bit_freq > 0
    &&& (clock_freq % bit_freq) * 256 <= u32::MAX
    &&& 1 <= clock_freq / bit_freq <= DIVIDER_MAX
    &&& (clock_freq / bit_freq != DIVIDER_MAX || ((clock_freq % bit_freq) * 256) / (bit_freq as int) == 0)
}

/// The divider as integer part (65536 written as 0) and fraction in 1/256.
pub open spec fn spec_divider(clock_freq: u32, bit_freq: u32) -> (u16, u8) {
    let whole = clock_freq / bit_freq;
    let frac = ((clock_freq % bit_freq) * 256) / (bit_freq as int);
    ((if whole == DIVIDER_MAX { 0 } else { whole }) as u16, frac as u8)
}

/// The clock divider for a state machine that runs at `bit_freq` Hz from a system
/// clock of `clock_freq` Hz.
pub fn clock_divider(clock_freq: u32, bit_freq: u32) -> (r: (u16, u8))
    requires
        spec_divider_possible(clock_freq, bit_freq),
    ensures
        r == spec_divider(clock_freq, bit_freq),
        (r.1 as int) < 256,
{
    let whole = clock_freq / bit_freq;
    proof {
        vstd::arithmetic::div_mod::lemma_fundamental_div_mod(clock_freq as int, bit_freq as int);
        vstd::arithmetic::div_mod::lemma_mod_bound(clock_freq as int, bit_freq as int);
        assert(whole * bit_freq == bit_freq * whole) by (nonlinear_arith);
        assert(whole * bit_freq == clock_freq - clock_freq % bit_freq);
    }
    let rem = clock_freq - whole * bit_freq;
    proof {
        assert(rem == clock_freq % bit_freq);
        assert(rem * 256 < 256 * bit_freq) by (nonlinear_arith)
            requires rem < bit_freq;
        vstd::arithmetic::div_mod::lemma_div_is_ordered((rem * 256) as int, (256 * bit_freq) as int, bit_freq as int);
        vstd::arithmetic::div_mod::lemma_div_by_multiple(256, bit_freq as int);
    }
    let frac = (rem * 256) / bit_freq;
    let whole = if whole == DIVIDER_MAX { 0 } else { whole };
    (whole as u16, frac as u8)
}

/// DSHOT line modes.
pub trait ValidMode {
    /// The frame as it goes on the line.
    spec fn spec_line_frame(value: u16) -> u16;

    fn line_frame(value: u16) -> (r: u16)
        ensures r == Self::spec_line_frame(value);
}

/// Unidirectional DSHOT.
#[derive(Clone, Copy, Debug)]
pub struct UnidirectionalMode;

/// Bidirectional DSHOT: inverted line and checksum, telemetry answers.
#[derive(Clone, Copy, Debug)]
pub struct BidirectionalMode;

impl ValidMode for UnidirectionalMode {
    open spec fn spec_line_frame(value: u16) -> u16 {
        value
    }

    fn line_frame(value: u16) -> (r: u16) {
        value
    }
}

impl ValidMode for BidirectionalMode {
    /// The checksum is inverted.
    open spec fn spec_line_frame(value: u16) -> u16 {
        value ^ 0x000F
    }

    fn line_frame(value: u16) -> (r: u16) {
        value ^ 0x000F
    }
}

/// DSHOT speed markers.
pub trait ValidVersion {
    spec fn spec_freq() -> u32;

    /// The bit rate in Hz.
    fn freq() -> (r: u32)
        ensures r == Self::spec_freq();
}

/// DSHOT speeds that bidirectional DSHOT supports.
pub trait ValidBidirVersion: ValidVersion {}

#[derive(Clone, Copy, Debug)]
pub struct Version150;
#[derive(Clone, Copy, Debug)]
pub struct Version300;
#[derive(Clone, Copy, Debug)]
pub struct Version600;
#[derive(Clone, Copy, Debug)]
pub struct Version1200;

impl ValidVersion for Version150 {
    open spec fn spec_freq() -> u32 { 150_000 }
    fn freq() -> (r: u32) { 150_000 }
}

impl ValidVersion for Version300 {
    open spec fn spec_freq() -> u32 { 300_000 }
    fn freq() -> (r: u32) { 300_000 }
}

impl ValidVersion for Version600 {
    open spec fn spec_freq() -> u32 { 600_000 }
    fn freq() -> (r: u32) { 600_000 }
}

impl ValidVersion for Version1200 {
    open spec fn spec_freq() -> u32 { 1_200_000 }
    fn freq() -> (r: u32) { 1_200_000 }
}

impl ValidBidirVersion for Version300 {}
impl ValidBidirVersion for Version600 {}
impl ValidBidirVersion for Version1200 {}

/// State machine clock cycles per bit: 8 sending only, 40 (8 * 5) with the receive
/// window of bidirectional DSHOT.
pub const UNIDIRECTIONAL_BIT_CYCLES: u32 = 8;
pub const BIDIRECTIONAL_BIT_CYCLES: u32 = 40;

/// A DSHOT driver in mode `M` at speed `V`: the state machine clock divider, the
/// last telemetry and the frames it has handed to the state machine's transmit FIFO
/// that the caller has not yet written.
pub struct Dshot<M, V> {
    clock_freq: u32,
    divider: (u16, u8),
    last_erpm: u16,
    frames: Vec<u16>,
    mode: PhantomData<M>,
    version: PhantomData<V>,
}

impl<M, V> Dshot<M, V> {
    /// The system clock frequency in Hz.
    pub closed spec fn clock(&self) -> u32 {
        self.clock_freq
    }

    /// The state machine clock divider.
    pub closed spec fn spec_divider(&self) -> (u16, u8) {
        self.divider
    }

    /// The last electrical period received.
    pub closed spec fn erpm(&self) -> u16 {
        self.last_erpm
    }

    /// The frames waiting for the transmit FIFO, oldest first.
    pub closed spec fn pending(&self) -> Seq<u16> {
        self.frames@
    }

    /// The state machine clock divider.
    pub fn divider(&self) -> (r: (u16, u8))
        ensures r == self.spec_divider(),
    {
        self.divider
    }

    /// The last electrical period received (in microseconds).
    pub fn erpm_period(&self) -> (r: u16)
        ensures r == self.erpm(),
    {
        self.last_erpm
    }

    /// Hands out the frames for the transmit FIFO, oldest first.
    pub fn take_frames(&mut self) -> (r: Vec<u16>)
        ensures
            r@ == old(self).pending(),
            final(self).pending().len() == 0,
            final(self).clock() == old(self).clock(),
            final(self).spec_divider() == old(self).spec_divider(),
            final(self).erpm() == old(self).erpm(),
    {
        let mut frames = Vec::new();
        std::mem::swap(&mut frames, &mut self.frames);
        frames
    }
}

impl<V: ValidVersion> Dshot<UnidirectionalMode, V> {
    /// A unidirectional driver for a system clock of `clock_freq` Hz, which must be
    /// dividable to 8 state machine cycles per bit.
    pub fn new(clock_freq: u32) -> (r: Self)
        requires
            V::spec_freq() * UNIDIRECTIONAL_BIT_CYCLES <= u32::MAX,
            spec_divider_possible(clock_freq, (V::spec_freq() * UNIDIRECTIONAL_BIT_CYCLES) as u32),
        ensures
            r.clock() == clock_freq,
            r.spec_divider() == spec_divider(clock_freq, (V::spec_freq() * UNIDIRECTIONAL_BIT_CYCLES) as u32),
            r.erpm() == 0,
            r.pending().len() == 0,
    {
        let bit_freq = V::freq() * UNIDIRECTIONAL_BIT_CYCLES;
        let divider = clock_divider(clock_freq, bit_freq);
        Dshot {
            clock_freq,
            divider,
            last_erpm: 0,
            frames: Vec::new(),
            mode: PhantomData,
            version: PhantomData,
        }
    }
}

/// The frame of a command as it goes on the line in mode `M`.
pub open spec fn spec_command_frame<M: ValidMode>(command: DshotCommand) -> u16 {
    M::spec_line_frame(spec_frame_value(DshotFrame { command, telemetry: false }))
}

/// `n` copies of a frame.
pub open spec fn spec_repeat(frame: u16, n: nat) -> Seq<u16> {
    Seq::new(n, |i: int| frame)
}

impl<M: ValidMode, V: ValidVersion> Dshot<M, V> {
    /// Queues a frame.
    fn send_frame(&mut self, value: u16)
        ensures
            final(self).pending() == old(self).pending().push(M::spec_line_frame(value)),
            final(self).clock() == old(self).clock(),
            final(self).spec_divider() == old(self).spec_divider(),
            final(self).erpm() == old(self).erpm(),
    {
        let line = M::line_frame(value);
        self.frames.push(line);
    }

    /// Queues a command frame.
    fn send_command(&mut self, command: DshotCommand)
        requires
            spec_valid_command(command),
        ensures
            final(self).pending() == old(self).pending().push(spec_command_frame::<M>(command)),
            final(self).clock() == old(self).clock(),
            final(self).spec_divider() == old(self).spec_divider(),
            final(self).erpm() == old(self).erpm(),
    {
        let frame = DshotFrame { command, telemetry: false };
        self.send_frame(frame_value(frame));
    }

    /// Queues a command ten times, as settings commands must be repeated.
    fn send_command_repeated(&mut self, command: DshotCommand)
        requires
            spec_valid_command(command),
        ensures
            final(self).pending() == old(self).pending() + spec_repeat(spec_command_frame::<M>(command), 10),
            final(self).clock() == old(self).clock(),
            final(self).spec_divider() == old(self).spec_divider(),
            final(self).erpm() == old(self).erpm(),
    {
        let mut i: u32 = 0;
        while i < 10
            invariant
                spec_valid_command(command),
                i <= 10,
                self.pending() == old(self).pending() + spec_repeat(spec_command_frame::<M>(command), i as nat),
                self.clock() == old(self).clock(),
                self.spec_divider() == old(self).spec_divider(),
                self.erpm() == old(self).erpm(),
            decreases 10 - i,
        {
            self.send_command(command);
            i = i + 1;
            assert(self.pending() =~= old(self).pending() + spec_repeat(spec_command_frame::<M>(command), i as nat));
        }
    }

    /// Disarms the motor.
    pub fn disarm(&mut self)
        ensures final(self).pending() == old(self).pending().push(spec_command_frame::<M>(DshotCommand::Disarm)),
    {
        self.send_command(DshotCommand::Disarm);
    }

    /// Beeps with the motor.
    pub fn beep1(&mut self)
        ensures final(self).pending() == old(self).pending().push(spec_command_frame::<M>(DshotCommand::Beep1)),
    {
        self.send_command(DshotCommand::Beep1);
    }

    /// Beeps with the motor.
    pub fn beep2(&mut self)
        ensures final(self).pending() == old(self).pending().push(spec_command_frame::<M>(DshotCommand::Beep2)),
    {
        self.send_command(DshotCommand::Beep2);
    }

    /// Beeps with the motor.
    pub fn beep3(&mut self)
        ensures final(self).pending() == old(self).pending().push(spec_command_frame::<M>(DshotCommand::Beep3)),
    {
        self.send_command(DshotCommand::Beep3);
    }

    /// Beeps with the motor.
    pub fn beep4(&mut self)
        ensures final(self).pending() == old(self).pending().push(spec_command_frame::<M>(DshotCommand::Beep4)),
    {
        self.send_command(DshotCommand::Beep4);
    }

    /// Beeps with the motor.
    pub fn beep5(&mut self)
        ensures final(self).pending() == old(self).pending().push(spec_command_frame::<M>(DshotCommand::Beep5)),
    {
        self.send_command(DshotCommand::Beep5);
    }

    /// Requests the ESC info.
    pub fn esc_info(&mut self)
        ensures final(self).pending() == old(self).pending().push(spec_command_frame::<M>(DshotCommand::EscInfo)),
    {
        self.send_command(DshotCommand::EscInfo);
    }

    /// Sets spin direction 1.
    pub fn spin_direction1(&mut self)
        ensures final(self).pending() == old(self).pending() + spec_repeat(spec_command_frame::<M>(DshotCommand::SpinDirection1), 10),
    {
        self.send_command_repeated(DshotCommand::SpinDirection1);
    }

    /// Sets spin direction 2.
    pub fn spin_direction2(&mut self)
        ensures final(self).pending() == old(self).pending() + spec_repeat(spec_command_frame::<M>(DshotCommand::SpinDirection2), 10),
    {
        self.send_command_repeated(DshotCommand::SpinDirection2);
    }

    /// Disables 3D mode (spinning both ways).
    pub fn disable_3d_mode(&mut self)
        ensures final(self).pending() == old(self).pending() + spec_repeat(spec_command_frame::<M>(DshotCommand::Disable3DMode), 10),
    {
        self.send_command_repeated(DshotCommand::Disable3DMode);
    }

    /// Enables 3D mode (spinning both ways).
    pub fn enable_3d_mode(&mut self)
        ensures final(self).pending() == old(self).pending() + spec_repeat(spec_command_frame::<M>(DshotCommand::Enable3DMode), 10),
    {
        self.send_command_repeated(DshotCommand::Enable3DMode);
    }

    /// Requests the current settings.
    pub fn settings_request(&mut self)
        ensures final(self).pending() == old(self).pending().push(spec_command_frame::<M>(DshotCommand::SettingsRequest)),
    {
        self.send_command(DshotCommand::SettingsRequest);
    }

    /// Saves the settings.
    pub fn save_settings(&mut self)
        ensures final(self).pending() == old(self).pending() + spec_repeat(spec_command_frame::<M>(DshotCommand::SaveSettings), 10),
    {
        self.send_command_repeated(DshotCommand::SaveSettings);
    }

    /// Sets the normal spin direction.
    pub fn spin_direction_normal(&mut self)
        ensures final(self).pending() == old(self).pending() + spec_repeat(spec_command_frame::<M>(DshotCommand::SpinDirectionNormal), 10),
    {
        self.send_command_repeated(DshotCommand::SpinDirectionNormal);
    }

    /// Sets the reversed spin direction.
    pub fn spin_direction_reversed(&mut self)
        ensures final(self).pending() == old(self).pending() + spec_repeat(spec_command_frame::<M>(DshotCommand::SpinDirectionReversed), 10),
    {
        self.send_command_repeated(DshotCommand::SpinDirectionReversed);
    }

    /// Turns LED 0 on.
    pub fn led0_on(&mut self)
        ensures final(self).pending() == old(self).pending().push(spec_command_frame::<M>(DshotCommand::Led0On)),
    {
        self.send_command(DshotCommand::Led0On);
    }

    /// Turns LED 1 on.
    pub fn led1_on(&mut self)
        ensures final(self).pending() == old(self).pending().push(spec_command_frame::<M>(DshotCommand::Led1On)),
    {
        self.send_command(DshotCommand::Led1On);
    }

    /// Turns LED 2 on.
    pub fn led2_on(&mut self)
        ensures final(self).pending() == old(self).pending().push(spec_command_frame::<M>(DshotCommand::Led2On)),
    {
        self.send_command(DshotCommand::Led2On);
    }

    /// Turns LED 3 on.
    pub fn led3_on(&mut self)
        ensures final(self).pending() == old(self).pending().push(spec_command_frame::<M>(DshotCommand::Led3On)),
    {
        self.send_command(DshotCommand::Led3On);
    }

    /// Turns LED 0 off.
    pub fn led0_off(&mut self)
        ensures final(self).pending() == old(self).pending().push(spec_command_frame::<M>(DshotCommand::Led0Off)),
    {
        self.send_command(DshotCommand::Led0Off);
    }

    /// Turns LED 1 off.
    pub fn led1_off(&mut self)
        ensures final(self).pending() == old(self).pending().push(spec_command_frame::<M>(DshotCommand::Led1Off)),
    {
        self.send_command(DshotCommand::Led1Off);
    }

    /// Turns LED 2 off.
    pub fn led2_off(&mut self)
        ensures final(self).pending() == old(self).pending().push(spec_command_frame::<M>(DshotCommand::Led2Off)),
    {
        self.send_command(DshotCommand::Led2Off);
    }

    /// Turns LED 3 off.
    pub fn led3_off(&mut self)
        ensures final(self).pending() == old(self).pending().push(spec_command_frame::<M>(DshotCommand::Led3Off)),
    {
        self.send_command(DshotCommand::Led3Off);
    }

    /// Sets the throttle (0..2000); other values are ignored.
    pub fn throttle(&mut self, throttle: u16)
        ensures
            final(self).pending() == (if throttle < 2000 {
                old(self).pending().push(spec_command_frame::<M>(DshotCommand::Throttle(throttle)))
            } else {
                old(self).pending()
            }),
            final(self).erpm() == old(self).erpm(),
            final(self).clock() == old(self).clock(),
            final(self).spec_divider() == old(self).spec_divider(),
    {
        if throttle < 2000 {
            self.send_command(DshotCommand::Throttle(throttle));
        }
    }
}

impl<M: ValidMode, V: ValidVersion> Dribbler<u16> for Dshot<M, V> {
    open spec fn accepts(&self, speed: u16) -> bool {
        true
    }

    /// Sets the throttle from the full `u16` range (speed / 32; the top of the range
    /// exceeds 2000 and is ignored).
    fn send(&mut self, speed: u16)
        ensures
            final(self).pending() == (if speed / 32 < 2000 {
                old(self).pending().push(spec_command_frame::<M>(DshotCommand::Throttle((speed / 32) as u16)))
            } else {
                old(self).pending()
            }),
            final(self).erpm() == old(self).erpm(),
            final(self).clock() == old(self).clock(),
            final(self).spec_divider() == old(self).spec_divider(),
    {
        let throttle = speed / (u16::MAX / 2000);
        self.throttle(throttle);
    }
}

impl<V: ValidBidirVersion> Dshot<UnidirectionalMode, V> {
    /// Switches to bidirectional DSHOT: the enabling command is queued ten times,
    /// then (once the caller has sent them) the state machine runs the bidirectional
    /// program at 40 cycles per bit.
    pub fn enable_telemetry(self) -> (r: Dshot<BidirectionalMode, V>)
        requires
            V::spec_freq() * BIDIRECTIONAL_BIT_CYCLES <= u32::MAX,
            spec_divider_possible(self.clock(), (V::spec_freq() * BIDIRECTIONAL_BIT_CYCLES) as u32),
        ensures
            r.clock() == self.clock(),
            r.erpm() == self.erpm(),
            r.spec_divider() == spec_divider(self.clock(), (V::spec_freq() * BIDIRECTIONAL_BIT_CYCLES) as u32),
            r.pending() == self.pending()
                + spec_repeat(spec_command_frame::<UnidirectionalMode>(DshotCommand::EnableSignalLineTelemetry), 10),
    {
        let mut d = self;
        d.send_command_repeated(DshotCommand::EnableSignalLineTelemetry);
        let bit_freq = V::freq() * BIDIRECTIONAL_BIT_CYCLES;
        let divider = clock_divider(d.clock_freq, bit_freq);
        Dshot {
            clock_freq: d.clock_freq,
            divider,
            last_erpm: d.last_erpm,
            frames: d.frames,
            mode: PhantomData,
            version: PhantomData,
        }
    }
}

impl<V: ValidBidirVersion> Dshot<BidirectionalMode, V> {
    /// Switches back to unidirectional DSHOT: the disabling command is queued ten
    /// times, then the state machine runs the unidirectional program at 8 cycles per
    /// bit.
    pub fn disable_telemetry(self) -> (r: Dshot<UnidirectionalMode, V>)
        requires
            V::spec_freq() * UNIDIRECTIONAL_BIT_CYCLES <= u32::MAX,
            spec_divider_possible(self.clock(), (V::spec_freq() * UNIDIRECTIONAL_BIT_CYCLES) as u32),
        ensures
            r.clock() == self.clock(),
            r.erpm() == self.erpm(),
            r.spec_divider() == spec_divider(self.clock(), (V::spec_freq() * UNIDIRECTIONAL_BIT_CYCLES) as u32),
            r.pending() == self.pending()
                + spec_repeat(spec_command_frame::<BidirectionalMode>(DshotCommand::DisableSignalLineTelemetry), 10),
    {
        let mut d = self;
        d.send_command_repeated(DshotCommand::DisableSignalLineTelemetry);
        let bit_freq = V::freq() * UNIDIRECTIONAL_BIT_CYCLES;
        let divider = clock_divider(d.clock_freq, bit_freq);
        Dshot {
            clock_freq: d.clock_freq,
            divider,
            last_erpm: d.last_erpm,
            frames: d.frames,
            mode: PhantomData,
            version: PhantomData,
        }
    }

    /// Takes a word from the receive FIFO: a valid telemetry frame updates the
    /// electrical period, anything else is dropped.
    pub fn read_telemetry(&mut self, received: u32)
        ensures
            final(self).erpm() == (match spec_decode_telemetry_bits(received) {
                Some(value) => spec_period(value),
                None => old(self).erpm(),
            }),
            final(self).pending() == old(self).pending(),
            final(self).clock() == old(self).clock(),
            final(self).spec_divider() == old(self).spec_divider(),
    {
        match decode_telemetry(received) {
            Some(telemetry) => self.last_erpm = telemetry,
            None => {},
        }
    }
}

} // verus!

verus! {

/// The exclusive or of the four nibbles of a 16 bit word.
pub open spec fn spec_nibble_parity(w: u16) -> u16 {
    (w ^ (w >> 4u16) ^ (w >> 8u16) ^ (w >> 12u16)) & 0xF
}

proof fn lemma_frame_bits(v: u16)
    by (bit_vector)
    requires
        v < 2048,
    ensures
        ({
            let bits: u16 = if v < 48 && v != 0 { (v << 5u16) | (1u16 << 4u16) } else { v << 5u16 };
            let csum0: u16 = (bits >> 8u16) ^ bits;
            let csum: u16 = ((csum0 >> 4u16) ^ csum0) & 0xF;
            let f: u16 = bits | csum;
            &&& (f ^ (f >> 4u16) ^ (f >> 8u16) ^ (f >> 12u16)) & 0xF == 0
            &&& ((f ^ 0xFu16) ^ ((f ^ 0xFu16) >> 4u16) ^ ((f ^ 0xFu16) >> 8u16) ^ ((f ^ 0xFu16) >> 12u16)) & 0xF == 0xF
            &&& f >> 5u16 == v
            &&& ((f >> 4u16) & 1 == 1) == (v < 48 && v != 0)
        }),
{
}

/// Every frame to the ESC carries its command's value in its top eleven bits, the
/// telemetry bit exactly for the special commands, and a checksum that makes the
/// exclusive or of its four nibbles zero; on the bidirectional line, where the
/// checksum is inverted, that exclusive or is 0xF.
pub proof fn lemma_frame_layout(frame: DshotFrame)
    requires
        spec_valid_command(frame.command),
    ensures
        spec_frame_value(frame) >> 5u16 == spec_command_value(frame.command),
        ((spec_frame_value(frame) >> 4u16) & 1 == 1)
            == (spec_command_value(frame.command) < 48 && spec_command_value(frame.command) != 0),
        spec_nibble_parity(spec_frame_value(frame)) == 0,
        spec_nibble_parity(BidirectionalMode::spec_line_frame(spec_frame_value(frame))) == 0xF,
{
    lemma_frame_bits(spec_command_value(frame.command));
}

proof fn lemma_five_bit_codes()
    by (bit_vector)
    ensures
        forall|x: u32| x <= 0x1F ==> #[trigger] (x & 0x1F) == x,
{
}

/// Decoding the GCR code of a nibble gives the nibble back.
pub proof fn lemma_gcr_roundtrip(nibble: u8)
    requires
        nibble < 16,
    ensures
        spec_decode_gcr(spec_encode_gcr(nibble)) == Some(nibble),
{
    lemma_five_bit_codes();
    let code = spec_encode_gcr(nibble);
    assert(code <= 0x1F);
    assert(code & 0x1F == code);
}


/// The GCR code table of bidirectional DSHOT telemetry: the five bit code of each
/// nibble; the all-zero and all-one codes stand for nothing.
pub proof fn lemma_gcr_code_table()
    ensures
        spec_decode_gcr(0x19) == Some(0u8),
        spec_decode_gcr(0x1B) == Some(1u8),
        spec_decode_gcr(0x12) == Some(2u8),
        spec_decode_gcr(0x13) == Some(3u8),
        spec_decode_gcr(0x1D) == Some(4u8),
        spec_decode_gcr(0x15) == Some(5u8),
        spec_decode_gcr(0x16) == Some(6u8),
        spec_decode_gcr(0x17) == Some(7u8),
        spec_decode_gcr(0x1A) == Some(8u8),
        spec_decode_gcr(0x09) == Some(9u8),
        spec_decode_gcr(0x0A) == Some(10u8),
        spec_decode_gcr(0x0B) == Some(11u8),
        spec_decode_gcr(0x1E) == Some(12u8),
        spec_decode_gcr(0x0D) == Some(13u8),
        spec_decode_gcr(0x0E) == Some(14u8),
        spec_decode_gcr(0x0F) == Some(15u8),
        spec_decode_gcr(0x00) is None,
        spec_decode_gcr(0x1F) is None,
{
    lemma_five_bit_codes();
}

/// The kinds of extended telemetry by the upper nibble of the payload: 2
/// temperature, 4 voltage, 6 current, 8, 0xA and 0xC the debug values, 0xE a state
/// event, each carrying the low byte; any other nibble makes the payload an eRPM
/// period.
pub proof fn lemma_extended_telemetry_kinds(v: u16)
    ensures
        v & 0xF00 == 0x200 ==> spec_extended_telemetry(v) == Telemetry::Temperature((v & 0xFF) as u8),
        v & 0xF00 == 0x400 ==> spec_extended_telemetry(v) == Telemetry::Voltage((v & 0xFF) as u8),
        v & 0xF00 == 0x600 ==> spec_extended_telemetry(v) == Telemetry::Current((v & 0xFF) as u8),
        v & 0xF00 == 0x800 ==> spec_extended_telemetry(v) == Telemetry::Debug1((v & 0xFF) as u8),
        v & 0xF00 == 0xA00 ==> spec_extended_telemetry(v) == Telemetry::Debug2((v & 0xFF) as u8),
        v & 0xF00 == 0xC00 ==> spec_extended_telemetry(v) == Telemetry::Debug3((v & 0xFF) as u8),
        v & 0xF00 == 0xE00 ==> spec_extended_telemetry(v) == Telemetry::StateEvent((v & 0xFF) as u8),
        v & 0xF00 == 0 || v & 0xF00 == 0x100 || v & 0xF00 == 0x300 || v & 0xF00 == 0x500
            || v & 0xF00 == 0x700 || v & 0xF00 == 0x900 || v & 0xF00 == 0xB00 || v & 0xF00 == 0xD00
            || v & 0xF00 == 0xF00 ==> spec_extended_telemetry(v) == Telemetry::Erpm(spec_period(v)),
{
}

/// An eRPM period payload `eee_mmmmmmmmm` stands for the nine bit mantissa times
/// two to the power of the three bit exponent, where that fits in 16 bits.
pub proof fn lemma_period_is_scaled_mantissa(v: u16)
    ensures
        ({
            let m = v & 0x1FF;
            let e = (v & 0xE00) >> 9u16;
            e < 8 && m * vstd::arithmetic::power2::pow2(e as nat) <= 0xFFFF
                ==> spec_period(v) as int == m * vstd::arithmetic::power2::pow2(e as nat)
        }),
{
    let m = v & 0x1FF;
    let e = (v & 0xE00) >> 9u16;
    if e < 8 && m * vstd::arithmetic::power2::pow2(e as nat) <= 0xFFFF {
        vstd::bits::lemma_u16_shl_is_mul(m, e);
    }
}

} // verus!
