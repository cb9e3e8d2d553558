//! Clock configuration decisions of the power management controller (PMC): which
//! oscillator and PLL settings each main clock choice uses, the register values
//! that select them, the master clock frequency they produce and the flash wait
//! states that frequency needs.
use vstd::prelude::*;
use core::marker::PhantomData;

verus! {

/// Choice of main clock.
#[derive(Clone, Copy, Debug, PartialEq, Eq, Structural)]
pub enum MainClock {
    /// Internal fast RC oscillator at 4 MHz (no USB).
    RcOscillator4Mhz,
    /// Internal fast RC oscillator at 8 MHz (no USB).
    RcOscillator8Mhz,
    /// Internal fast RC oscillator at 12 MHz (no USB).
    RcOscillator12Mhz,
    /// External 12 MHz crystal (USB capable).
    Crystal12Mhz,
    /// External 16 MHz crystal.
    Crystal16Mhz,
}

/// Choice of slow clock.
#[derive(Clone, Copy, Debug, PartialEq, Eq, Structural)]
pub enum SlowClock {
    RcOscillator32Khz,
    Crystal32Khz,
    OscillatorBypass32Khz,
}

/// Peripheral clock state: enabled.
#[derive(Clone, Copy, Debug)]
pub struct Enabled;

/// Peripheral clock state: disabled.
#[derive(Clone, Copy, Debug)]
pub struct Disabled;

/// A peripheral clock in state `STATE`.
pub struct PeripheralClock<STATE> {
    _state: PhantomData<STATE>,
}

impl<STATE> PeripheralClock<STATE> {
    /// A peripheral clock marker.
    pub fn new() -> Self {
        PeripheralClock { _state: PhantomData }
    }
}

/// Oscillator that drives the main clock.
#[derive(Clone, Copy, Debug, PartialEq, Eq, Structural)]
pub enum MainClockSource {
    FastRc4Mhz,
    FastRc8Mhz,
    FastRc12Mhz,
    /// The external crystal oscillator.
    Crystal,
}

/// How a main clock choice is brought up: its oscillator, the PLLA multiplier and
/// divider, and the master clock prescaler field (0: none, 1: divide by two).
#[derive(Clone, Copy, Debug, PartialEq, Eq, Structural)]
pub struct MainClockSetup {
    pub source: MainClockSource,
    pub multiplier: u16,
    pub divider: u8,
    pub prescaler: u8,
}

/// The setup of each main clock: the RC oscillators run the PLL at 120 MHz, the
/// crystals at 240 MHz (12 MHz * 20, 16 MHz * 15) halved by the prescaler, so that the
/// PLL can also feed the 48 MHz USB clock.
pub open spec fn spec_main_clock_setup(main_clock: MainClock) -> MainClockSetup {
    match main_clock {
        MainClock::RcOscillator4Mhz => MainClockSetup { source: MainClockSource::FastRc4Mhz, multiplier: 30, divider: 1, prescaler: 0 },
        MainClock::RcOscillator8Mhz => MainClockSetup { source: MainClockSource::FastRc8Mhz, multiplier: 15, divider: 1, prescaler: 0 },
        MainClock::RcOscillator12Mhz => MainClockSetup { source: MainClockSource::FastRc12Mhz, multiplier: 10, divider: 1, prescaler: 0 },
        MainClock::Crystal12Mhz => MainClockSetup { source: MainClockSource::Crystal, multiplier: 20, divider: 1, prescaler: 1 },
        MainClock::Crystal16Mhz => MainClockSetup { source: MainClockSource::Crystal, multiplier: 15, divider: 1, prescaler: 1 },
    }
}

/// The oscillator, PLLA settings and prescaler used for `main_clock`.
pub fn main_clock_setup(main_clock: MainClock) -> (r: MainClockSetup)
    ensures r == spec_main_clock_setup(main_clock),
{
    match main_clock {
        MainClock::RcOscillator4Mhz => MainClockSetup { source: MainClockSource::FastRc4Mhz, multiplier: 30, divider: 1, prescaler: 0 },
        MainClock::RcOscillator8Mhz => MainClockSetup { source: MainClockSource::FastRc8Mhz, multiplier: 15, divider: 1, prescaler: 0 },
        MainClock::RcOscillator12Mhz => MainClockSetup { source: MainClockSource::FastRc12Mhz, multiplier: 10, divider: 1, prescaler: 0 },
        MainClock::Crystal12Mhz => MainClockSetup { source: MainClockSource::Crystal, multiplier: 20, divider: 1, prescaler: 1 },
        MainClock::Crystal16Mhz => MainClockSetup { source: MainClockSource::Crystal, multiplier: 15, divider: 1, prescaler: 1 },
    }
}

/// Whether the main clock choice has a crystal, which the USB clock needs.
pub open spec fn spec_usb_capable(main_clock: MainClock) -> bool {
    main_clock == MainClock::Crystal12Mhz || main_clock == MainClock::Crystal16Mhz
}

/// The USB clock divider field (`PMC_USB.USBDIV`, the divider minus one) for a main
/// clock choice: 240 MHz / 5 = 48 MHz with a crystal, none without one.
pub fn usb_divider_field(main_clock: MainClock) -> (r: Option<u32>)
    ensures r == (if spec_usb_capable(main_clock) { Some(4u32) } else { None::<u32> }),
{
    match main_clock {
        MainClock::Crystal12Mhz | MainClock::Crystal16Mhz => Some(5 - 1),
        _ => None,
    }
}

/// Frequency of the slow clock in Hz, whichever source is chosen.
pub fn slow_clock_frequency(slow_clock: SlowClock) -> (r: u32)
    ensures r == 32768,
{
    match slow_clock {
        SlowClock::RcOscillator32Khz => 32768,
        SlowClock::Crystal32Khz => 32768,
        SlowClock::OscillatorBypass32Khz => 32768,
    }
}

// Fields of CKGR_PLLAR.
/// `CKGR_PLLAR.DIVA` (bits 0..=7).
pub open spec fn spec_diva(pllar: u32) -> u32 { pllar & 0xFF }
/// `CKGR_PLLAR.MULA` (bits 16..=26).
pub open spec fn spec_mula(pllar: u32) -> u32 { (pllar >> 16u32) & 0x7FF }

// Fields of CKGR_MOR.
/// `CKGR_MOR.MOSCSEL` (bit 24): the crystal drives the main clock.
pub open spec fn spec_moscsel(mor: u32) -> bool { mor & 0x0100_0000 != 0 }
/// `CKGR_MOR.MOSCRCF` (bits 4..=6): the fast RC oscillator frequency.
pub open spec fn spec_moscrcf(mor: u32) -> u32 { (mor >> 4u32) & 0x7 }

// Fields of PMC_MCKR.
/// `PMC_MCKR.CSS` (bits 0..=1): the master clock source, 2 being PLLA.
pub open spec fn spec_css(mckr: u32) -> u32 { mckr & 0x3 }
/// `PMC_MCKR.PRES` (bits 4..=6): the master clock prescaler.
pub open spec fn spec_pres(mckr: u32) -> u32 { (mckr >> 4u32) & 0x7 }

/// Frequency in Hz of the crystal a main clock choice runs from: 12 MHz for the 12 MHz
/// crystal, 16 MHz for the 16 MHz crystal (and, unused, for the RC oscillator choices).
pub open spec fn spec_crystal_frequency(main_clock: MainClock) -> u32 {
    match main_clock {
        MainClock::Crystal12Mhz => 12_000_000,
        _ => 16_000_000,
    }
}

/// The crystal frequency in Hz of a main clock choice.
pub fn crystal_frequency(main_clock: MainClock) -> (r: u32)
    ensures
        r == spec_crystal_frequency(main_clock),
{
    match main_clock {
        MainClock::Crystal12Mhz => 12_000_000,
        _ => 16_000_000,
    }
}

/// Frequency in Hz of the main clock as `CKGR_MOR` selects it: that of the crystal
/// (`crystal` Hz), else that of the fast RC oscillator (`MOSCRCF` 0, 1, 2: 4, 8,
/// 12 MHz).
pub open spec fn spec_main_frequency(mor: u32, crystal: u32) -> int {
    if spec_moscsel(mor) {
        crystal as int
    } else if spec_moscrcf(mor) == 2 {
        12_000_000
    } else if spec_moscrcf(mor) == 1 {
        8_000_000
    } else {
        4_000_000
    }
}

/// Whether the registers describe a clock setup whose frequency can be computed: the
/// master clock runs from PLLA, the RC frequency field holds a defined value, the PLL
/// divider is not zero and the PLL output fits in 32 bits.
pub open spec fn spec_master_clock_computable(mckr: u32, mor: u32, pllar: u32, crystal: u32) -> bool {
    &&& spec_css(mckr) == 2
    &&& (spec_moscsel(mor) || spec_moscrcf(mor) <= 2)
    &&& spec_diva(pllar) != 0
    &&& spec_main_frequency(mor, crystal) * (spec_mula(pllar) + 1) <= u32::MAX
}

/// The PLLA output in Hz: main clock * (MULA + 1) / DIVA.
pub open spec fn spec_plla_frequency(mor: u32, pllar: u32, crystal: u32) -> int {
    (spec_main_frequency(mor, crystal) * (spec_mula(pllar) + 1)) / (spec_diva(pllar) as int)
}

/// The master clock frequency in Hz: the PLLA output shifted right by `PRES`, or
/// divided by three where `PRES` is 7.
pub open spec fn spec_master_clock_frequency(mckr: u32, mor: u32, pllar: u32, crystal: u32) -> u32 {
    let f = spec_plla_frequency(mor, pllar, crystal) as u32;
    if spec_pres(mckr) == 7 {
        f / 3
    } else {
        f >> spec_pres(mckr)
    }
}

/// The master clock frequency in Hz that the PMC registers configure, with a crystal
/// of `crystal` Hz (see `crystal_frequency`). Only a master clock driven by PLLA is
/// supported.
pub fn calculate_master_clock_frequency(mckr: u32, mor: u32, pllar: u32, crystal: u32) -> (r: u32)
    requires
        spec_master_clock_computable(mckr, mor, pllar, crystal),
    ensures
        r == spec_master_clock_frequency(mckr, mor, pllar, crystal),
{
    let main: u32 = if mor & 0x0100_0000 != 0 {
        crystal
    } else {
        let moscrcf = (mor >> 4u32) & 0x7;
        if moscrcf == 2 {
            12_000_000
        } else if moscrcf == 1 {
            8_000_000
        } else {
            4_000_000
        }
    };
    let mula = (pllar >> 16u32) & 0x7FF;
    let diva = pllar & 0xFF;
    let pres = (mckr >> 4u32) & 0x7;
    proof {
        assert(main as int == spec_main_frequency(mor, crystal));
        assert(mula <= 0x7FF && pres <= 7) by (bit_vector)
            requires mula == (pllar >> 16u32) & 0x7FF, pres == (mckr >> 4u32) & 0x7;
    }
    let mut freq: u32 = main * (mula + 1);
    freq = freq / diva;
    if pres == 7 {
        freq / 3
    } else {
        freq >> pres
    }
}

/// The number of flash wait states a master clock frequency (Hz) needs: one more
/// per 20 MHz, five from 100 MHz up to 123 MHz.
pub open spec fn spec_flash_wait_states(clock_frequency: u32) -> u8 {
    if clock_frequency < 20_000_000 {
        0
    } else if clock_frequency < 40_000_000 {
        1
    } else if clock_frequency < 60_000_000 {
        2
    } else if clock_frequency < 80_000_000 {
        3
    } else if clock_frequency < 100_000_000 {
        4
    } else {
        5
    }
}

/// The flash wait states for a master clock frequency in Hz, below 123 MHz.
pub fn get_flash_wait_states_for_clock_frequency(clock_frequency: u32) -> (r: u8)
    requires
        clock_frequency < 123_000_000,
    ensures
        r == spec_flash_wait_states(clock_frequency),
        r <= 5,
        r == (if clock_frequency / 20_000_000 < 5 { clock_frequency / 20_000_000 } else { 5 }),
{
    if clock_frequency < 20_000_000 {
        0
    } else if clock_frequency < 40_000_000 {
        1
    } else if clock_frequency < 60_000_000 {
        2
    } else if clock_frequency < 80_000_000 {
        3
    } else if clock_frequency < 100_000_000 {
        4
    } else {
        5
    }
}

/// One more flash wait state per 20 MHz of master clock, at most five: below
/// 123 MHz the wait states are the frequency over 20 MHz, rounded down, capped at 5.
pub proof fn lemma_flash_wait_states_per_20_mhz(clock_frequency: u32)
    requires
        clock_frequency < 123_000_000,
    ensures
        spec_flash_wait_states(clock_frequency) as int
            == (if clock_frequency / 20_000_000 < 5 { clock_frequency / 20_000_000 } else { 5 }),
        clock_frequency < 100_000_000 ==> 20_000_000 * spec_flash_wait_states(clock_frequency) <= clock_frequency
            < 20_000_000 * (spec_flash_wait_states(clock_frequency) + 1),
{
}

/// `EEFC_FMR` with `FWS` (bits 8..=11) set to `wait_states` and `CLOE` (bit 26) set,
/// the other bits kept.
pub open spec fn spec_fmr_with_wait_states(fmr: u32, wait_states: u8) -> u32 {
    (fmr & !0x0000_0F00u32) | (((wait_states as u32) & 0xF) << 8u32) | 0x0400_0000u32
}

/// The flash mode register value that applies `wait_states`.
pub fn fmr_with_wait_states(fmr: u32, wait_states: u8) -> (r: u32)
    ensures r == spec_fmr_with_wait_states(fmr, wait_states),
{
    (fmr & !0x0000_0F00u32) | (((wait_states as u32) & 0xF) << 8u32) | 0x0400_0000u32
}

/// The flash mode register value before the clock is raised: the maximum of five
/// wait states.
pub fn set_flash_wait_states_to_maximum(fmr: u32) -> (r: u32)
    ensures r == spec_fmr_with_wait_states(fmr, 5),
{
    fmr_with_wait_states(fmr, 5)
}

/// The flash mode register value for a master clock frequency (Hz) below 123 MHz.
pub fn set_flash_wait_states_to_match_frequency(fmr: u32, clock_frequency: u32) -> (r: u32)
    requires
        clock_frequency < 123_000_000,
    ensures
        r == spec_fmr_with_wait_states(fmr, spec_flash_wait_states(clock_frequency)),
        r == spec_fmr_with_wait_states(fmr,
            (if clock_frequency / 20_000_000 < 5 { clock_frequency / 20_000_000 } else { 5 }) as u8),
{
    let wait_state_count = get_flash_wait_states_for_clock_frequency(clock_frequency);
    fmr_with_wait_states(fmr, wait_state_count)
}

/// PLL settling time in slow clock cycles (150 us at 32 kHz, rounded up).
pub const PLLA_SETTLING_CYCLES: u32 = 5;

/// `CKGR_PLLAR` with `ONE` (bit 29) set, `PLLACOUNT` (bits 8..=13) the settling time,
/// `MULA` the multiplier minus one and `DIVA` the divider, the other bits kept.
pub open spec fn spec_pllar_enabled(pllar: u32, multiplier: u16, divider: u8) -> u32 {
    (pllar & !0x07FF_3FFFu32) | 0x2000_0000u32 | (5u32 << 8u32)
        | ((((multiplier - 1) as u16 as u32) & 0x7FF) << 16u32) | (divider as u32)
}

/// `CKGR_PLLAR` with `ONE` set and `MULA` cleared, which stops PLLA.
pub open spec fn spec_pllar_disabled(pllar: u32) -> u32 {
    (pllar & !0x07FF_0000u32) | 0x2000_0000u32
}

/// The PLLA register value that stops the PLL.
pub fn disable_plla_clock(pllar: u32) -> (r: u32)
    ensures r == spec_pllar_disabled(pllar),
{
    (pllar & !0x07FF_0000u32) | 0x2000_0000u32
}

/// The PLLA register value that runs the PLL at `multiplier / divider` times the
/// main clock; the register holds the multiplier minus one.
pub fn enable_plla_clock(pllar: u32, multiplier: u16, divider: u8) -> (r: u32)
    requires
        multiplier >= 1,
    ensures
        r == spec_pllar_enabled(pllar, multiplier, divider),
{
    let mula: u16 = multiplier - 1;
    (pllar & !0x07FF_3FFFu32) | 0x2000_0000u32 | (PLLA_SETTLING_CYCLES << 8u32)
        | (((mula as u32) & 0x7FF) << 16u32) | (divider as u32)
}

/// `PMC_MCKR` with `PRES` set to `prescaler`, the other bits kept.
pub open spec fn spec_mckr_with_prescaler(mckr: u32, prescaler: u8) -> u32 {
    (mckr & !0x70u32) | (((prescaler as u32) & 0x7) << 4u32)
}

/// `PMC_MCKR` with `CSS` set to PLLA (2), the other bits kept.
pub open spec fn spec_mckr_with_plla(mckr: u32) -> u32 {
    (mckr & !0x3u32) | 0x2u32
}

/// The master clock register value with the given prescaler.
pub fn mckr_with_prescaler(mckr: u32, prescaler: u8) -> (r: u32)
    ensures r == spec_mckr_with_prescaler(mckr, prescaler),
{
    (mckr & !0x70u32) | (((prescaler as u32) & 0x7) << 4u32)
}

/// The master clock register value that selects PLLA.
pub fn mckr_with_plla(mckr: u32) -> (r: u32)
    ensures r == spec_mckr_with_plla(mckr),
{
    (mckr & !0x3u32) | 0x2u32
}

/// Which PMC peripheral clock register (0 or 1) and bit enable or disable
/// peripheral `id`: identifiers up to 31 are in the first register.
pub open spec fn spec_peripheral_clock_bit(id: u8) -> (u8, u32) {
    if id <= 31 {
        (0, 1u32 << (id as u32))
    } else {
        (1, 1u32 << ((id - 32) as u32))
    }
}

/// The register (0 or 1) and the bit of `PMC_PCERx` / `PMC_PCDRx` for peripheral `id`.
pub fn peripheral_clock_bit(id: u8) -> (r: (u8, u32))
    requires
        id < 64,
    ensures
        r == spec_peripheral_clock_bit(id),
{
    if id <= 31 {
        (0, 1u32 << (id as u32))
    } else {
        (1, 1u32 << ((id - 32) as u32))
    }
}

} // verus!

verus! {

/// The bit-level facts behind the register writers: each writes its field and keeps
/// every other bit.
proof fn lemma_clock_register_bits(fmr: u32, w: u32, pllar: u32, mula: u32, div: u32, mckr: u32, pres: u32)
    by (bit_vector)
    requires
        w < 16,
        mula < 0x800,
        div < 0x100,
        pres < 8,
    ensures
        ({
            let f = (fmr & !0x0000_0F00u32) | ((w & 0xF) << 8u32) | 0x0400_0000u32;
            &&& (f >> 8u32) & 0xF == w
            &&& f & 0x0400_0000u32 != 0
            &&& f & !0x0400_0F00u32 == fmr & !0x0400_0F00u32
        }),
        ({
            let q = (pllar & !0x07FF_3FFFu32) | 0x2000_0000u32 | (5u32 << 8u32) | ((mula & 0x7FF) << 16u32) | div;
            &&& (q >> 16u32) & 0x7FF == mula
            &&& q & 0xFF == div
            &&& (q >> 8u32) & 0x3F == 5
            &&& q & 0x2000_0000u32 != 0
        }),
        ({
            let q = (pllar & !0x07FF_0000u32) | 0x2000_0000u32;
            &&& (q >> 16u32) & 0x7FF == 0
            &&& q & 0xFF == pllar & 0xFF
        }),
        ({
            let m = (mckr & !0x70u32) | ((pres & 0x7) << 4u32);
            &&& (m >> 4u32) & 0x7 == pres
            &&& m & 0x3 == mckr & 0x3
        }),
        ({
            let m = (mckr & !0x3u32) | 0x2u32;
            &&& m & 0x3 == 2
            &&& (m >> 4u32) & 0x7 == (mckr >> 4u32) & 0x7
        }),
{
}

/// Writing the flash wait states into `EEFC_FMR` and reading the `FWS` field back
/// gives them; `CLOE` is set and every other bit is kept.
pub proof fn lemma_fmr_wait_states_read_back(fmr: u32, wait_states: u8)
    requires
        wait_states < 16,
    ensures
        (spec_fmr_with_wait_states(fmr, wait_states) >> 8u32) & 0xF == wait_states,
        spec_fmr_with_wait_states(fmr, wait_states) & 0x0400_0000u32 != 0,
        spec_fmr_with_wait_states(fmr, wait_states) & !0x0400_0F00u32 == fmr & !0x0400_0F00u32,
{
    lemma_clock_register_bits(fmr, wait_states as u32, 0, 0, 0, 0, 0);
}

/// Enabling PLLA with `multiplier` and `divider` makes the register read back
/// `MULA == multiplier - 1` and `DIVA == divider`, with the settling count and the
/// `ONE` bit; stopping it leaves `MULA` zero and `DIVA` as it was.
pub proof fn lemma_pllar_read_back(pllar: u32, multiplier: u16, divider: u8)
    requires
        1 <= multiplier <= 0x800,
    ensures
        spec_mula(spec_pllar_enabled(pllar, multiplier, divider)) == multiplier - 1,
        spec_diva(spec_pllar_enabled(pllar, multiplier, divider)) == divider,
        (spec_pllar_enabled(pllar, multiplier, divider) >> 8u32) & 0x3F == PLLA_SETTLING_CYCLES,
        spec_mula(spec_pllar_disabled(pllar)) == 0,
        spec_diva(spec_pllar_disabled(pllar)) == spec_diva(pllar),
{
    lemma_clock_register_bits(0, 0, pllar, (multiplier - 1) as u32, divider as u32, 0, 0);
}

/// Setting the prescaler makes `PRES` read back as it and keeps the clock source;
/// selecting PLLA makes `CSS` read back 2 and keeps the prescaler.
pub proof fn lemma_mckr_read_back(mckr: u32, prescaler: u8)
    requires
        prescaler < 8,
    ensures
        spec_pres(spec_mckr_with_prescaler(mckr, prescaler)) == prescaler,
        spec_css(spec_mckr_with_prescaler(mckr, prescaler)) == spec_css(mckr),
        spec_css(spec_mckr_with_plla(mckr)) == 2,
        spec_pres(spec_mckr_with_plla(mckr)) == spec_pres(mckr),
{
    lemma_clock_register_bits(0, 0, 0, 0, 0, mckr, prescaler as u32);
}

/// The master clock is the PLLA output, `main * (MULA + 1) / DIVA`, divided by
/// `2^PRES`, or by three where `PRES` is 7.
pub proof fn lemma_master_clock_is_divided_plla(mckr: u32, mor: u32, pllar: u32, crystal: u32)
    requires
        spec_master_clock_computable(mckr, mor, pllar, crystal),
    ensures
        spec_master_clock_frequency(mckr, mor, pllar, crystal) as int == (if spec_pres(mckr) == 7 {
            (spec_main_frequency(mor, crystal) * (spec_mula(pllar) + 1)) / (spec_diva(pllar) as int) / 3
        } else {
            (spec_main_frequency(mor, crystal) * (spec_mula(pllar) + 1)) / (spec_diva(pllar) as int)
                / (vstd::arithmetic::power2::pow2(spec_pres(mckr) as nat) as int)
        }),
{
    let main = spec_main_frequency(mor, crystal);
    let prod = main * (spec_mula(pllar) + 1);
    let d = spec_diva(pllar) as int;
    assert(main >= 0);
    assert(prod >= 0) by (nonlinear_arith) requires main >= 0, spec_mula(pllar) >= 0, prod == main * (spec_mula(pllar) + 1);
    assert(prod / d <= prod) by (nonlinear_arith) requires prod >= 0, d >= 1;
    let f = (prod / d) as u32;
    let pres = spec_pres(mckr);
    assert(pres <= 7) by (bit_vector) requires pres == (mckr >> 4u32) & 0x7;
    if pres != 7 {
        vstd::bits::lemma_u32_shr_is_div(f, pres);
    }
}

/// Whether `CKGR_MOR` selects `source` as the main clock.
pub open spec fn spec_mor_selects(mor: u32, source: MainClockSource) -> bool {
    match source {
        MainClockSource::Crystal => spec_moscsel(mor),
        MainClockSource::FastRc4Mhz => !spec_moscsel(mor) && spec_moscrcf(mor) == 0,
        MainClockSource::FastRc8Mhz => !spec_moscsel(mor) && spec_moscrcf(mor) == 1,
        MainClockSource::FastRc12Mhz => !spec_moscsel(mor) && spec_moscrcf(mor) == 2,
    }
}

proof fn lemma_pllar_enabled_fields(pllar: u32, mula: u32, divider: u32)
    by (bit_vector)
    requires
        mula <= 0x7FF,
        divider <= 0xFF,
    ensures
        ((((pllar & !0x07FF_3FFFu32) | 0x2000_0000u32 | (5u32 << 8u32) | ((mula & 0x7FF) << 16u32) | divider)
            >> 16u32) & 0x7FF) == mula,
        (((pllar & !0x07FF_3FFFu32) | 0x2000_0000u32 | (5u32 << 8u32) | ((mula & 0x7FF) << 16u32) | divider)
            & 0xFF) == divider,
{
}

proof fn lemma_mckr_fields(mckr: u32, prescaler: u32)
    by (bit_vector)
    requires
        prescaler <= 7,
    ensures
        ((((mckr & !0x70u32) | ((prescaler & 0x7) << 4u32)) & !0x3u32) | 0x2u32) & 0x3 == 2,
        ((((((mckr & !0x70u32) | ((prescaler & 0x7) << 4u32)) & !0x3u32) | 0x2u32) >> 4u32) & 0x7) == prescaler,
        0u32 >> 0u32 == 0u32,
        120_000_000u32 >> 0u32 == 120_000_000u32,
        240_000_000u32 >> 1u32 == 120_000_000u32,
{
}

/// The setup of each main clock choice runs the master clock at 120 MHz: once the
/// main clock register selects the oscillator, PLLA holds
/// the chosen multiplier and divider and the master clock register the chosen
/// prescaler with PLLA as source, the computed master clock frequency is 120 MHz.
pub proof fn lemma_main_clock_setup_runs_at_120mhz(
    main_clock: MainClock,
    mor: u32,
    pllar_before: u32,
    mckr_before: u32,
)
    requires
        spec_mor_selects(mor, spec_main_clock_setup(main_clock).source),
    ensures
        ({
            let s = spec_main_clock_setup(main_clock);
            let pllar = spec_pllar_enabled(pllar_before, s.multiplier, s.divider);
            let mckr = spec_mckr_with_plla(spec_mckr_with_prescaler(mckr_before, s.prescaler));
            let crystal = spec_crystal_frequency(main_clock);
            &&& spec_master_clock_computable(mckr, mor, pllar, crystal)
            &&& spec_master_clock_frequency(mckr, mor, pllar, crystal) == 120_000_000
        }),
{
    let s = spec_main_clock_setup(main_clock);
    let mula: u32 = ((s.multiplier - 1) as u16) as u32;
    let pllar = spec_pllar_enabled(pllar_before, s.multiplier, s.divider);
    let mckr = spec_mckr_with_plla(spec_mckr_with_prescaler(mckr_before, s.prescaler));
    lemma_pllar_enabled_fields(pllar_before, mula, s.divider as u32);
    lemma_mckr_fields(mckr_before, s.prescaler as u32);
    assert(spec_mula(pllar) == mula);
    assert(spec_diva(pllar) == 1);
    assert(spec_css(mckr) == 2);
    assert(spec_pres(mckr) == s.prescaler);
    assert(mula + 1 == s.multiplier);
    let crystal = spec_crystal_frequency(main_clock);
    match main_clock {
        MainClock::RcOscillator4Mhz => assert(spec_main_frequency(mor, crystal) == 4_000_000),
        MainClock::RcOscillator8Mhz => assert(spec_main_frequency(mor, crystal) == 8_000_000),
        MainClock::RcOscillator12Mhz => assert(spec_main_frequency(mor, crystal) == 12_000_000),
        MainClock::Crystal12Mhz => assert(spec_main_frequency(mor, crystal) == 12_000_000),
        MainClock::Crystal16Mhz => assert(spec_main_frequency(mor, crystal) == 16_000_000),
    }
    assert(spec_main_frequency(mor, crystal) * s.multiplier == 120_000_000 * (s.prescaler + 1));
    assert(spec_plla_frequency(mor, pllar, crystal) == 120_000_000 * (s.prescaler + 1));
}

} // verus!

verus! {

/// A step of bringing up a clock: a read-modify-write of a PMC register (clear the
/// `clear` bits, then set the `set` bits), or a wait until all `mask` bits of
/// `PMC_SR` are set.
#[derive(Clone, Copy, Debug, PartialEq, Eq, Structural)]
pub enum ClockStep {
    ModifyMor { clear: u32, set: u32 },
    ModifyPllar { clear: u32, set: u32 },
    ModifyMckr { clear: u32, set: u32 },
    WaitStatus(u32),
}

/// `CKGR_MOR.KEY` (bits 16..=23) and its password 0x37, which every write carries.
pub const MOR_KEY_MASK: u32 = 0x00FF_0000;
pub const MOR_KEY: u32 = 0x0037_0000;
/// `CKGR_MOR.MOSCXTEN` (bit 0): crystal oscillator enabled.
pub const MOR_MOSCXTEN: u32 = 0x0000_0001;
/// `CKGR_MOR.MOSCRCEN` (bit 3): fast RC oscillator enabled.
pub const MOR_MOSCRCEN: u32 = 0x0000_0008;
/// `CKGR_MOR.MOSCRCF` (bits 4..=6).
pub const MOR_MOSCRCF_MASK: u32 = 0x0000_0070;
/// `CKGR_MOR.MOSCXTST` (bits 8..=15): crystal start-up time in 8 slow clocks.
pub const MOR_MOSCXTST_MASK: u32 = 0x0000_FF00;
/// `CKGR_MOR.MOSCSEL` (bit 24): the crystal drives the main clock.
pub const MOR_MOSCSEL: u32 = 0x0100_0000;

/// `PMC_SR` bits: crystal stable, PLLA locked, master clock ready, main clock
/// selection done, fast RC oscillator stable.
pub const SR_MOSCXTS: u32 = 0x0000_0001;
pub const SR_LOCKA: u32 = 0x0000_0002;
pub const SR_MCKRDY: u32 = 0x0000_0008;
pub const SR_MOSCSELS: u32 = 0x0001_0000;
pub const SR_MOSCRCS: u32 = 0x0002_0000;

/// The registers the steps change.
#[derive(Clone, Copy, Debug, PartialEq, Eq, Structural)]
pub struct ClockRegisters {
    pub mor: u32,
    pub pllar: u32,
    pub mckr: u32,
}

/// The registers after one step (a wait changes none).
pub open spec fn spec_apply_step(regs: ClockRegisters, step: ClockStep) -> ClockRegisters {
    match step {
        ClockStep::ModifyMor { clear, set } => ClockRegisters { mor: (regs.mor & !clear) | set, ..regs },
        ClockStep::ModifyPllar { clear, set } => ClockRegisters { pllar: (regs.pllar & !clear) | set, ..regs },
        ClockStep::ModifyMckr { clear, set } => ClockRegisters { mckr: (regs.mckr & !clear) | set, ..regs },
        ClockStep::WaitStatus(_) => regs,
    }
}

/// The registers after the steps, in order.
pub open spec fn spec_run(regs: ClockRegisters, steps: Seq<ClockStep>) -> ClockRegisters
    decreases steps.len(),
{
    if steps.len() == 0 {
        regs
    } else {
        spec_apply_step(spec_run(regs, steps.drop_last()), steps.last())
    }
}

/// The steps that make the fast RC oscillator, at frequency code `code` (0, 1, 2:
/// 4, 8, 12 MHz), drive the main clock: enable it, wait until it is stable, set the
/// frequency, wait again, select it.
pub open spec fn spec_fast_rc_steps(code: u32) -> Seq<ClockStep> {
    seq![
        ClockStep::ModifyMor { clear: MOR_KEY_MASK, set: MOR_KEY | MOR_MOSCRCEN },
        ClockStep::WaitStatus(SR_MOSCRCS),
        ClockStep::ModifyMor { clear: MOR_KEY_MASK | MOR_MOSCRCF_MASK, set: MOR_KEY | (code << 4u32) },
        ClockStep::WaitStatus(SR_MOSCRCS),
        ClockStep::ModifyMor { clear: MOR_KEY_MASK | MOR_MOSCSEL, set: MOR_KEY },
    ]
}

/// The steps that make the crystal drive the main clock: enable it (keeping the RC
/// oscillator running) with a start-up time of 16 * 8 slow clocks (4 ms), wait until
/// it is stable, select it and stop the RC oscillator, wait until the selection is
/// done.
pub open spec fn spec_crystal_steps() -> Seq<ClockStep> {
    seq![
        ClockStep::ModifyMor {
            clear: MOR_KEY_MASK | MOR_MOSCXTST_MASK,
            set: MOR_KEY | MOR_MOSCRCEN | MOR_MOSCXTEN | (16u32 << 8u32),
        },
        ClockStep::WaitStatus(SR_MOSCXTS),
        ClockStep::ModifyMor { clear: MOR_KEY_MASK | MOR_MOSCRCEN, set: MOR_KEY | MOR_MOSCSEL },
        ClockStep::WaitStatus(SR_MOSCSELS),
    ]
}

/// The steps that run PLLA at `multiplier / divider` and the master clock from it
/// with `prescaler`: stop PLLA, start it with the new settings, wait for the main
/// clock and the lock, set the prescaler, wait, select PLLA, wait.
pub open spec fn spec_plla_steps(multiplier: u16, divider: u8, prescaler: u8) -> Seq<ClockStep> {
    seq![
        ClockStep::ModifyPllar { clear: 0x07FF_0000, set: 0x2000_0000 },
        ClockStep::ModifyPllar {
            clear: 0x07FF_3FFF,
            set: 0x2000_0000u32 | (5u32 << 8u32) | ((((multiplier - 1) as u16 as u32) & 0x7FF) << 16u32) | (divider as u32),
        },
        ClockStep::WaitStatus(SR_MOSCSELS),
        ClockStep::WaitStatus(SR_LOCKA),
        ClockStep::ModifyMckr { clear: 0x70, set: ((prescaler as u32) & 0x7) << 4u32 },
        ClockStep::WaitStatus(SR_MCKRDY),
        ClockStep::ModifyMckr { clear: 0x3, set: 0x2 },
        ClockStep::WaitStatus(SR_MCKRDY),
    ]
}

/// The steps that bring up a main clock choice.
pub open spec fn spec_main_clock_steps(main_clock: MainClock) -> Seq<ClockStep> {
    let s = spec_main_clock_setup(main_clock);
    let source_steps = match s.source {
        MainClockSource::FastRc4Mhz => spec_fast_rc_steps(0),
        MainClockSource::FastRc8Mhz => spec_fast_rc_steps(1),
        MainClockSource::FastRc12Mhz => spec_fast_rc_steps(2),
        MainClockSource::Crystal => spec_crystal_steps(),
    };
    source_steps + spec_plla_steps(s.multiplier, s.divider, s.prescaler)
}

fn push_fast_rc_steps(steps: &mut Vec<ClockStep>, code: u32)
    requires
        code <= 2,
    ensures
        final(steps)@ == old(steps)@ + spec_fast_rc_steps(code),
{
    steps.push(ClockStep::ModifyMor { clear: MOR_KEY_MASK, set: MOR_KEY | MOR_MOSCRCEN });
    steps.push(ClockStep::WaitStatus(SR_MOSCRCS));
    steps.push(ClockStep::ModifyMor { clear: MOR_KEY_MASK | MOR_MOSCRCF_MASK, set: MOR_KEY | (code << 4u32) });
    steps.push(ClockStep::WaitStatus(SR_MOSCRCS));
    steps.push(ClockStep::ModifyMor { clear: MOR_KEY_MASK | MOR_MOSCSEL, set: MOR_KEY });
    assert(steps@ =~= old(steps)@ + spec_fast_rc_steps(code));
}

/// The register steps that bring up `main_clock` (see `main_clock_setup` for the
/// settings); the master clock frequency is then read back with
/// `calculate_master_clock_frequency`.
pub fn setup_main_clock(main_clock: MainClock) -> (r: Vec<ClockStep>)
    ensures
        r@ == spec_main_clock_steps(main_clock),
{
    let s = main_clock_setup(main_clock);
    let mut steps: Vec<ClockStep> = Vec::new();
    match s.source {
        MainClockSource::FastRc4Mhz => push_fast_rc_steps(&mut steps, 0),
        MainClockSource::FastRc8Mhz => push_fast_rc_steps(&mut steps, 1),
        MainClockSource::FastRc12Mhz => push_fast_rc_steps(&mut steps, 2),
        MainClockSource::Crystal => {
            steps.push(ClockStep::ModifyMor {
                clear: MOR_KEY_MASK | MOR_MOSCXTST_MASK,
                set: MOR_KEY | MOR_MOSCRCEN | MOR_MOSCXTEN | (16u32 << 8u32),
            });
            steps.push(ClockStep::WaitStatus(SR_MOSCXTS));
            steps.push(ClockStep::ModifyMor { clear: MOR_KEY_MASK | MOR_MOSCRCEN, set: MOR_KEY | MOR_MOSCSEL });
            steps.push(ClockStep::WaitStatus(SR_MOSCSELS));
            assert(steps@ =~= spec_crystal_steps());
        },
    }
    let ghost source_steps = steps@;
    let mula: u16 = s.multiplier - 1;
    steps.push(ClockStep::ModifyPllar { clear: 0x07FF_0000, set: 0x2000_0000 });
    steps.push(ClockStep::ModifyPllar {
        clear: 0x07FF_3FFF,
        set: 0x2000_0000u32 | (5u32 << 8u32) | (((mula as u32) & 0x7FF) << 16u32) | (s.divider as u32),
    });
    steps.push(ClockStep::WaitStatus(SR_MOSCSELS));
    steps.push(ClockStep::WaitStatus(SR_LOCKA));
    steps.push(ClockStep::ModifyMckr { clear: 0x70, set: ((s.prescaler as u32) & 0x7) << 4u32 });
    steps.push(ClockStep::WaitStatus(SR_MCKRDY));
    steps.push(ClockStep::ModifyMckr { clear: 0x3, set: 0x2 });
    steps.push(ClockStep::WaitStatus(SR_MCKRDY));
    assert(steps@ =~= source_steps + spec_plla_steps(s.multiplier, s.divider, s.prescaler));
    steps
}

/// `SUPC_CR` value that selects the 32 kHz crystal: the password 0xA5 and `XTALSEL`.
pub const SUPC_CR_XTALSEL: u32 = 0xA500_0008;
/// `SUPC_MR` bits set for the crystal bypass: the password 0xA5 and `OSCBYPASS`.
pub const SUPC_MR_BYPASS: u32 = 0xA510_0000;

/// A step of bringing up the slow clock.
#[derive(Clone, Copy, Debug, PartialEq, Eq, Structural)]
pub enum SlowClockStep {
    /// Set these bits in `SUPC_MR` (its key field first cleared).
    ModifySupcMr(u32),
    /// Write this value to `SUPC_CR`.
    WriteSupcCr(u32),
}

/// The steps that bring up a slow clock choice: none for the RC oscillator (the
/// default, which cannot be selected again before a reset), the crystal selected,
/// or the bypass enabled and then the crystal selected.
pub open spec fn spec_slow_clock_steps(slow_clock: SlowClock) -> Seq<SlowClockStep> {
    match slow_clock {
        SlowClock::RcOscillator32Khz => Seq::empty(),
        SlowClock::Crystal32Khz => seq![SlowClockStep::WriteSupcCr(SUPC_CR_XTALSEL)],
        SlowClock::OscillatorBypass32Khz =>
            seq![SlowClockStep::ModifySupcMr(SUPC_MR_BYPASS), SlowClockStep::WriteSupcCr(SUPC_CR_XTALSEL)],
    }
}

/// The steps that bring up `slow_clock`, and its frequency (32768 Hz).
pub fn setup_slow_clock(slow_clock: SlowClock) -> (r: (Vec<SlowClockStep>, u32))
    ensures
        r.0@ == spec_slow_clock_steps(slow_clock),
        r.1 == 32768,
{
    let mut steps: Vec<SlowClockStep> = Vec::new();
    match slow_clock {
        SlowClock::RcOscillator32Khz => {},
        SlowClock::Crystal32Khz => {
            steps.push(SlowClockStep::WriteSupcCr(SUPC_CR_XTALSEL));
        },
        SlowClock::OscillatorBypass32Khz => {
            steps.push(SlowClockStep::ModifySupcMr(SUPC_MR_BYPASS));
            steps.push(SlowClockStep::WriteSupcCr(SUPC_CR_XTALSEL));
        },
    }
    assert(steps@ =~= spec_slow_clock_steps(slow_clock));
    (steps, slow_clock_frequency(slow_clock))
}

/// `PMC_SR.LOCKB` (bit 2): PLLB locked. PLLB drives the USB port of the SAM4S parts.
pub const SR_LOCKB: u32 = 0x0000_0004;

/// `CKGR_PLLBR` with `MULB` (bits 16..=26) set to `mulb`, the other bits kept. A
/// zero `MULB` stops PLLB.
pub open spec fn spec_pllbr_with_mulb(pllbr: u32, mulb: u16) -> u32 {
    (pllbr & !0x07FF_0000u32) | (((mulb as u32) & 0x7FF) << 16u32)
}

/// The PLLB register value that stops the PLL (its multiplier field cleared).
pub fn disable_pllb_clock(pllbr: u32) -> (r: u32)
    ensures
        r == spec_pllbr_with_mulb(pllbr, 0),
{
    let stopped: u16 = 0;
    (pllbr & !0x07FF_0000u32) | (((stopped as u32) & 0x7FF) << 16u32)
}

/// The PLLB register value that starts the PLL again with the multiplier field it
/// was set up with (`saved_mulb`, the multiplier minus one), as after a USB suspend.
pub fn reenable_pllb_clock(pllbr: u32, saved_mulb: u16) -> (r: u32)
    ensures
        r == spec_pllbr_with_mulb(pllbr, saved_mulb),
{
    (pllbr & !0x07FF_0000u32) | (((saved_mulb as u32) & 0x7FF) << 16u32)
}

/// The step that waits until PLLB is locked.
pub fn wait_for_pllb_lock() -> (r: ClockStep)
    ensures
        r == ClockStep::WaitStatus(SR_LOCKB),
{
    ClockStep::WaitStatus(SR_LOCKB)
}

} // verus!

verus! {

proof fn lemma_run_push(regs: ClockRegisters, steps: Seq<ClockStep>, step: ClockStep)
    ensures
        spec_run(regs, steps.push(step)) == spec_apply_step(spec_run(regs, steps), step),
{
    assert(steps.push(step).drop_last() =~= steps);
}

proof fn lemma_run_append(regs: ClockRegisters, a: Seq<ClockStep>, b: Seq<ClockStep>)
    ensures
        spec_run(regs, a + b) == spec_run(spec_run(regs, a), b),
    decreases b.len(),
{
    if b.len() == 0 {
        assert(a + b =~= a);
    } else {
        lemma_run_append(regs, a, b.drop_last());
        assert((a + b).drop_last() =~= a + b.drop_last());
        assert((a + b).last() == b.last());
    }
}

proof fn lemma_mor_bits(m: u32, c: u32)
    by (bit_vector)
    requires
        c <= 2,
    ensures
        ({
            let m1 = (m & !0x00FF_0000u32) | (0x0037_0000u32 | 0x0000_0008u32);
            let m2 = (m1 & !(0x00FF_0000u32 | 0x0000_0070u32)) | (0x0037_0000u32 | (c << 4u32));
            let m3 = (m2 & !(0x00FF_0000u32 | 0x0100_0000u32)) | 0x0037_0000u32;
            m3 & 0x0100_0000u32 == 0 && (m3 >> 4u32) & 0x7 == c
        }),
        ({
            let x1 = (m & !(0x00FF_0000u32 | 0x0000_FF00u32))
                | (0x0037_0000u32 | 0x0000_0008u32 | 0x0000_0001u32 | (16u32 << 8u32));
            let x2 = (x1 & !(0x00FF_0000u32 | 0x0000_0008u32)) | (0x0037_0000u32 | 0x0100_0000u32);
            x2 & 0x0100_0000u32 != 0
        }),
{
}

proof fn lemma_pllar_bits(p: u32, mula: u32, d: u32)
    by (bit_vector)
    ensures
        (p & !0x07FF_3FFFu32) | (0x2000_0000u32 | (5u32 << 8u32) | ((mula & 0x7FF) << 16u32) | d)
            == (p & !0x07FF_3FFFu32) | 0x2000_0000u32 | (5u32 << 8u32) | ((mula & 0x7FF) << 16u32) | d,
{
}

/// The registers after bringing up a main clock.
pub open spec fn spec_after_setup(main_clock: MainClock, regs: ClockRegisters) -> ClockRegisters {
    spec_run(regs, spec_main_clock_steps(main_clock))
}

/// Bringing up any main clock, from any register values, leaves registers whose
/// master clock frequency, with the choice's crystal, is 120 MHz.
pub proof fn lemma_setup_main_clock_runs_at_120mhz(main_clock: MainClock, regs: ClockRegisters)
    ensures
        spec_master_clock_computable(
            spec_after_setup(main_clock, regs).mckr,
            spec_after_setup(main_clock, regs).mor,
            spec_after_setup(main_clock, regs).pllar,
            spec_crystal_frequency(main_clock),
        ),
        spec_master_clock_frequency(
            spec_after_setup(main_clock, regs).mckr,
            spec_after_setup(main_clock, regs).mor,
            spec_after_setup(main_clock, regs).pllar,
            spec_crystal_frequency(main_clock),
        ) == 120_000_000,
{
    let s = spec_main_clock_setup(main_clock);
    let source_steps = match s.source {
        MainClockSource::FastRc4Mhz => spec_fast_rc_steps(0),
        MainClockSource::FastRc8Mhz => spec_fast_rc_steps(1),
        MainClockSource::FastRc12Mhz => spec_fast_rc_steps(2),
        MainClockSource::Crystal => spec_crystal_steps(),
    };
    let plla = spec_plla_steps(s.multiplier, s.divider, s.prescaler);
    lemma_run_append(regs, source_steps, plla);
    // The oscillator steps select the source and leave PLLA and the master clock.
    let r0 = regs;
    let code: u32 = match s.source {
        MainClockSource::FastRc4Mhz => 0,
        MainClockSource::FastRc8Mhz => 1,
        _ => 2,
    };
    lemma_mor_bits(r0.mor, code);
    let mid = spec_run(regs, source_steps);
    if s.source == MainClockSource::Crystal {
        let e = Seq::<ClockStep>::empty();
        let st = spec_crystal_steps();
        assert(st =~= e.push(st[0]).push(st[1]).push(st[2]).push(st[3]));
        lemma_run_push(regs, e, st[0]);
        lemma_run_push(regs, e.push(st[0]), st[1]);
        lemma_run_push(regs, e.push(st[0]).push(st[1]), st[2]);
        lemma_run_push(regs, e.push(st[0]).push(st[1]).push(st[2]), st[3]);
        assert(spec_mor_selects(mid.mor, s.source));
    } else {
        let e = Seq::<ClockStep>::empty();
        let st = spec_fast_rc_steps(code);
        assert(st == source_steps);
        assert(st =~= e.push(st[0]).push(st[1]).push(st[2]).push(st[3]).push(st[4]));
        lemma_run_push(regs, e, st[0]);
        lemma_run_push(regs, e.push(st[0]), st[1]);
        lemma_run_push(regs, e.push(st[0]).push(st[1]), st[2]);
        lemma_run_push(regs, e.push(st[0]).push(st[1]).push(st[2]), st[3]);
        lemma_run_push(regs, e.push(st[0]).push(st[1]).push(st[2]).push(st[3]), st[4]);
        assert(spec_mor_selects(mid.mor, s.source));
    }
    assert(mid.pllar == regs.pllar && mid.mckr == regs.mckr);
    // The PLLA steps.
    let e = Seq::<ClockStep>::empty();
    assert(plla =~= e.push(plla[0]).push(plla[1]).push(plla[2]).push(plla[3]).push(plla[4]).push(plla[5])
        .push(plla[6]).push(plla[7]));
    lemma_run_push(mid, e, plla[0]);
    lemma_run_push(mid, e.push(plla[0]), plla[1]);
    lemma_run_push(mid, e.push(plla[0]).push(plla[1]), plla[2]);
    lemma_run_push(mid, e.push(plla[0]).push(plla[1]).push(plla[2]), plla[3]);
    lemma_run_push(mid, e.push(plla[0]).push(plla[1]).push(plla[2]).push(plla[3]), plla[4]);
    lemma_run_push(mid, e.push(plla[0]).push(plla[1]).push(plla[2]).push(plla[3]).push(plla[4]), plla[5]);
    lemma_run_push(mid, e.push(plla[0]).push(plla[1]).push(plla[2]).push(plla[3]).push(plla[4]).push(plla[5]), plla[6]);
    lemma_run_push(mid, e.push(plla[0]).push(plla[1]).push(plla[2]).push(plla[3]).push(plla[4]).push(plla[5])
        .push(plla[6]), plla[7]);
    let fin = spec_run(mid, plla);
    let disabled = spec_pllar_disabled(mid.pllar);
    lemma_pllar_bits(disabled, ((s.multiplier - 1) as u16) as u32, s.divider as u32);
    assert(fin.pllar == spec_pllar_enabled(disabled, s.multiplier, s.divider));
    assert(fin.mckr == spec_mckr_with_plla(spec_mckr_with_prescaler(mid.mckr, s.prescaler)));
    assert(fin.mor == mid.mor);
    lemma_main_clock_setup_runs_at_120mhz(main_clock, mid.mor, disabled, mid.mckr);
}

} // verus!
