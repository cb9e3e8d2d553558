//! General purpose I/O: the PIO controllers as a whole, the type markers of pin
//! modes, and the register writes that put a pin into a mode, with a model of the
//! PIO status registers they act on.
use vstd::prelude::*;
use core::marker::PhantomData;

verus! {

/// Splits a peripheral into its parts.
pub trait GpioExt {
    type Parts;

    fn split(self) -> Self::Parts;
}

/// The PIO controllers A to E, each with its clock enabled, taken over as a whole.
pub struct Ports<A, B, C, D, E> {
    pioa: PhantomData<A>,
    piob: PhantomData<B>,
    pioc: PhantomData<C>,
    piod: PhantomData<D>,
    pioe: PhantomData<E>,
}

impl<A, B, C, D, E> Ports<A, B, C, D, E> {
    /// Takes the PIO controllers (each with its enabled clock); they are not handed
    /// out again.
    pub fn new(pioa: A, piob: B, pioc: C, piod: D, pioe: E) -> (r: Self) {
        Ports { pioa: PhantomData, piob: PhantomData, pioc: PhantomData, piod: PhantomData, pioe: PhantomData }
    }
}

/// A pin configured for input, with pull mode `MODE`.
pub struct Input<MODE> {
    pub mode: PhantomData<MODE>,
}

/// A pin configured for output, with drive mode `MODE`.
pub struct Output<MODE> {
    pub mode: PhantomData<MODE>,
}

/// Peripheral function A.
pub struct PfA;
/// Peripheral function B.
pub struct PfB;
/// Peripheral function C.
pub struct PfC;
/// Peripheral function D.
pub struct PfD;
/// System function.
pub struct SysFn;
/// Extra function.
pub struct ExFn;

/// Input without pull resistor.
pub struct Floating;
/// Input with pull-down resistor.
pub struct PullDown;
/// Input with pull-up resistor.
pub struct PullUp;

/// Push-pull output.
pub struct PushPull;
/// Open-drain output.
pub struct OpenDrain;


/// The modes a pin can be put into.
#[derive(Clone, Copy, Debug, PartialEq, Eq, Structural)]
pub enum PinMode {
    PeripheralA,
    PeripheralB,
    PeripheralC,
    PeripheralD,
    FloatingInput,
    PullDownInput,
    PullUpInput,
    OpenDrainOutput,
    PushPullOutput,
}

/// The set/clear registers of a PIO controller (written with the pin's bit only).
#[derive(Clone, Copy, Debug, PartialEq, Eq, Structural)]
pub enum PioRegister {
    /// `PIO_PER`: the PIO controls the pin.
    Per,
    /// `PIO_PDR`: a peripheral controls the pin.
    Pdr,
    /// `PIO_OER`: output enabled.
    Oer,
    /// `PIO_ODR`: output disabled.
    Odr,
    /// `PIO_IDR`: input change interrupt disabled.
    Idr,
    /// `PIO_MDER`: multi-drive (open drain) enabled.
    Mder,
    /// `PIO_MDDR`: multi-drive disabled.
    Mddr,
    /// `PIO_PUER`: pull-up enabled.
    Puer,
    /// `PIO_PUDR`: pull-up disabled.
    Pudr,
    /// `PIO_PPDER`: pull-down enabled.
    Ppder,
    /// `PIO_PPDDR`: pull-down disabled.
    Ppddr,
    /// `PIO_IFSCDR`: glitch filter (not debouncing) selected.
    Ifscdr,
    /// `PIO_SODR`: output driven high.
    Sodr,
    /// `PIO_CODR`: output driven low.
    Codr,
}

/// A register access of a pin mode change.
#[derive(Clone, Copy, Debug, PartialEq, Eq, Structural)]
pub enum PioStep {
    /// Writes the pin's bit `mask` to a set/clear register.
    Write(PioRegister, u32),
    /// Reads peripheral select register `index` (1 or 2, `PIO_ABCDSR1`/`2`), sets or
    /// clears the pin's bit and writes it back.
    Select { index: u8, set: bool, mask: u32 },
    /// Sets the pin's bit in the matrix's `CCFG_SYSIO`, which gives a system I/O pin
    /// to the PIO.
    SystemFunctionOff(u32),
    /// Clears the pin's bit in `CCFG_SYSIO`, which gives the pin to its system
    /// function.
    SystemFunctionOn(u32),
}

/// The status of a PIO controller's pins as the registers above change it, one bit
/// per pin: controlled by the PIO (`PIO_PSR`), output enabled (`PIO_OSR`),
/// multi-drive (`PIO_MDSR`), pull-up and pull-down enabled (the inverse of
/// `PIO_PUSR` and `PIO_PPDSR`), debouncing (`PIO_IFSCSR`), interrupt enabled
/// (`PIO_IMR`), the peripheral selects, the driven output level (`PIO_ODSR`) and
/// the system I/O bits of the matrix.
#[derive(Clone, Copy, Debug, PartialEq, Eq, Structural)]
pub struct PioStatus {
    pub pio: u32,
    pub output: u32,
    pub multi_drive: u32,
    pub pull_up: u32,
    pub pull_down: u32,
    pub debounce: u32,
    pub interrupt: u32,
    pub select1: u32,
    pub select2: u32,
    pub level: u32,
    pub sysio: u32,
}

/// The status after one step.
pub open spec fn apply_step(s: PioStatus, step: PioStep) -> PioStatus {
    match step {
        PioStep::Write(reg, m) => match reg {
            PioRegister::Per => PioStatus { pio: s.pio | m, ..s },
            PioRegister::Pdr => PioStatus { pio: s.pio & !m, ..s },
            PioRegister::Oer => PioStatus { output: s.output | m, ..s },
            PioRegister::Odr => PioStatus { output: s.output & !m, ..s },
            PioRegister::Idr => PioStatus { interrupt: s.interrupt & !m, ..s },
            PioRegister::Mder => PioStatus { multi_drive: s.multi_drive | m, ..s },
            PioRegister::Mddr => PioStatus { multi_drive: s.multi_drive & !m, ..s },
            PioRegister::Puer => PioStatus { pull_up: s.pull_up | m, ..s },
            PioRegister::Pudr => PioStatus { pull_up: s.pull_up & !m, ..s },
            PioRegister::Ppder => PioStatus { pull_down: s.pull_down | m, ..s },
            PioRegister::Ppddr => PioStatus { pull_down: s.pull_down & !m, ..s },
            PioRegister::Ifscdr => PioStatus { debounce: s.debounce & !m, ..s },
            PioRegister::Sodr => PioStatus { level: s.level | m, ..s },
            PioRegister::Codr => PioStatus { level: s.level & !m, ..s },
        },
        PioStep::Select { index, set, mask } => if index == 1 {
            PioStatus { select1: if set { s.select1 | mask } else { s.select1 & !mask }, ..s }
        } else {
            PioStatus { select2: if set { s.select2 | mask } else { s.select2 & !mask }, ..s }
        },
        PioStep::SystemFunctionOff(m) => PioStatus { sysio: s.sysio | m, ..s },
        PioStep::SystemFunctionOn(m) => PioStatus { sysio: s.sysio & !m, ..s },
    }
}

/// The status after the steps from the `k`-th on, in order.
pub open spec fn apply_from(s: PioStatus, steps: Seq<PioStep>, k: int) -> PioStatus
    decreases steps.len() - k,
{
    if 0 <= k < steps.len() {
        apply_from(apply_step(s, steps[k]), steps, k + 1)
    } else {
        s
    }
}

/// The status after the steps, in order.
pub open spec fn apply_steps(s: PioStatus, steps: Seq<PioStep>) -> PioStatus {
    apply_from(s, steps, 0)
}

/// The bit of pin `pin`.
pub open spec fn pin_mask(pin: u8) -> u32 {
    1u32 << (pin as u32)
}

/// The first steps of a mode change: for a peripheral function pull-up,
/// pull-down, multi-drive and debouncing off; for an input the interrupt,
/// multi-drive and output off; for an output the interrupt off.
pub open spec fn spec_prepare_steps(pin: u8, mode: PinMode) -> Seq<PioStep> {
    let m = pin_mask(pin);
    match mode {
        PinMode::PeripheralA | PinMode::PeripheralB | PinMode::PeripheralC | PinMode::PeripheralD => seq![
            PioStep::Write(PioRegister::Pudr, m),
            PioStep::Write(PioRegister::Ppddr, m),
            PioStep::Write(PioRegister::Mddr, m),
            PioStep::Write(PioRegister::Ifscdr, m),
        ],
        PinMode::FloatingInput | PinMode::PullDownInput | PinMode::PullUpInput => seq![
            PioStep::Write(PioRegister::Idr, m),
            PioStep::Write(PioRegister::Mddr, m),
            PioStep::Write(PioRegister::Odr, m),
        ],
        PinMode::OpenDrainOutput | PinMode::PushPullOutput => seq![PioStep::Write(PioRegister::Idr, m)],
    }
}

/// The last steps of a mode change: the peripheral selects (A: 0 0, B: 1 0, C: 0 1,
/// D: 1 1) and the pin given to the peripheral; for an input the pull resistors and
/// the pin given to the PIO; for an output the drive, output enabled and the pin
/// given to the PIO.
pub open spec fn spec_finish_steps(pin: u8, mode: PinMode) -> Seq<PioStep> {
    let m = pin_mask(pin);
    match mode {
        PinMode::PeripheralA => seq![
            PioStep::Select { index: 1, set: false, mask: m },
            PioStep::Select { index: 2, set: false, mask: m },
            PioStep::Write(PioRegister::Pdr, m),
        ],
        PinMode::PeripheralB => seq![
            PioStep::Select { index: 1, set: true, mask: m },
            PioStep::Select { index: 2, set: false, mask: m },
            PioStep::Write(PioRegister::Pdr, m),
        ],
        PinMode::PeripheralC => seq![
            PioStep::Select { index: 1, set: false, mask: m },
            PioStep::Select { index: 2, set: true, mask: m },
            PioStep::Write(PioRegister::Pdr, m),
        ],
        PinMode::PeripheralD => seq![
            PioStep::Select { index: 1, set: true, mask: m },
            PioStep::Select { index: 2, set: true, mask: m },
            PioStep::Write(PioRegister::Pdr, m),
        ],
        PinMode::FloatingInput => seq![
            PioStep::Write(PioRegister::Pudr, m),
            PioStep::Write(PioRegister::Ppddr, m),
            PioStep::Write(PioRegister::Per, m),
        ],
        PinMode::PullDownInput => seq![
            PioStep::Write(PioRegister::Pudr, m),
            PioStep::Write(PioRegister::Ppder, m),
            PioStep::Write(PioRegister::Per, m),
        ],
        PinMode::PullUpInput => seq![
            PioStep::Write(PioRegister::Ppddr, m),
            PioStep::Write(PioRegister::Puer, m),
            PioStep::Write(PioRegister::Per, m),
        ],
        PinMode::OpenDrainOutput => seq![
            PioStep::Write(PioRegister::Mder, m),
            PioStep::Write(PioRegister::Oer, m),
            PioStep::Write(PioRegister::Per, m),
        ],
        PinMode::PushPullOutput => seq![
            PioStep::Write(PioRegister::Mddr, m),
            PioStep::Write(PioRegister::Oer, m),
            PioStep::Write(PioRegister::Per, m),
        ],
    }
}

/// The steps that put pin `pin` into `mode`; a system I/O pin is also taken from
/// its system function between the first and the last steps.
pub open spec fn spec_mode_steps(pin: u8, mode: PinMode, sysio: bool) -> Seq<PioStep> {
    spec_prepare_steps(pin, mode)
        + (if sysio { seq![PioStep::SystemFunctionOff(pin_mask(pin))] } else { Seq::empty() })
        + spec_finish_steps(pin, mode)
}

/// Whether bit `pin` of `x` is set.
pub open spec fn pin_set(x: u32, pin: int) -> bool {
    (x >> (pin as u32)) & 1 == 1
}

/// Whether pin `pin` is in `mode` in status `s`.
pub open spec fn in_mode(s: PioStatus, pin: int, mode: PinMode) -> bool {
    match mode {
        PinMode::PeripheralA | PinMode::PeripheralB | PinMode::PeripheralC | PinMode::PeripheralD => {
            &&& !pin_set(s.pio, pin)
            &&& !pin_set(s.pull_up, pin)
            &&& !pin_set(s.pull_down, pin)
            &&& !pin_set(s.multi_drive, pin)
            &&& !pin_set(s.debounce, pin)
            &&& pin_set(s.select1, pin) == (mode == PinMode::PeripheralB || mode == PinMode::PeripheralD)
            &&& pin_set(s.select2, pin) == (mode == PinMode::PeripheralC || mode == PinMode::PeripheralD)
        },
        PinMode::FloatingInput | PinMode::PullDownInput | PinMode::PullUpInput => {
            &&& pin_set(s.pio, pin)
            &&& !pin_set(s.output, pin)
            &&& !pin_set(s.multi_drive, pin)
            &&& !pin_set(s.interrupt, pin)
            &&& pin_set(s.pull_up, pin) == (mode == PinMode::PullUpInput)
            &&& pin_set(s.pull_down, pin) == (mode == PinMode::PullDownInput)
        },
        PinMode::OpenDrainOutput | PinMode::PushPullOutput => {
            &&& pin_set(s.pio, pin)
            &&& pin_set(s.output, pin)
            &&& !pin_set(s.interrupt, pin)
            &&& pin_set(s.multi_drive, pin) == (mode == PinMode::OpenDrainOutput)
        },
    }
}

/// Whether `a` and `b` agree on pin `pin` in every register.
pub open spec fn same_pin(a: PioStatus, b: PioStatus, pin: int) -> bool {
    &&& pin_set(a.pio, pin) == pin_set(b.pio, pin)
    &&& pin_set(a.output, pin) == pin_set(b.output, pin)
    &&& pin_set(a.multi_drive, pin) == pin_set(b.multi_drive, pin)
    &&& pin_set(a.pull_up, pin) == pin_set(b.pull_up, pin)
    &&& pin_set(a.pull_down, pin) == pin_set(b.pull_down, pin)
    &&& pin_set(a.debounce, pin) == pin_set(b.debounce, pin)
    &&& pin_set(a.interrupt, pin) == pin_set(b.interrupt, pin)
    &&& pin_set(a.select1, pin) == pin_set(b.select1, pin)
    &&& pin_set(a.select2, pin) == pin_set(b.select2, pin)
    &&& pin_set(a.level, pin) == pin_set(b.level, pin)
    &&& pin_set(a.sysio, pin) == pin_set(b.sysio, pin)
}

/// Whether a step writes only the bit of pin `pin`.
pub open spec fn touches_only(step: PioStep, pin: u8) -> bool {
    match step {
        PioStep::Write(_, m) => m == pin_mask(pin),
        PioStep::Select { mask, .. } => mask == pin_mask(pin),
        PioStep::SystemFunctionOff(m) => m == pin_mask(pin),
        PioStep::SystemFunctionOn(m) => m == pin_mask(pin),
    }
}

proof fn lemma_pin_bits(x: u32, i: u32, j: u32)
    by (bit_vector)
    requires
        i < 32,
        j < 32,
    ensures
        ((x | (1u32 << i)) >> j) & 1 == (if i == j { 1u32 } else { (x >> j) & 1 }),
        ((x & !(1u32 << i)) >> j) & 1 == (if i == j { 0u32 } else { (x >> j) & 1 }),
{
}

/// One step on pin `pin` leaves every other pin as it was.
proof fn lemma_step_other_pins(s: PioStatus, step: PioStep, pin: u8, j: u8)
    requires
        pin < 32,
        j < 32,
        j != pin,
        touches_only(step, pin),
    ensures
        same_pin(apply_step(s, step), s, j as int),
{
    let p = pin as u32;
    let q = j as u32;
    lemma_pin_bits(s.pio, p, q);
    lemma_pin_bits(s.output, p, q);
    lemma_pin_bits(s.multi_drive, p, q);
    lemma_pin_bits(s.pull_up, p, q);
    lemma_pin_bits(s.pull_down, p, q);
    lemma_pin_bits(s.debounce, p, q);
    lemma_pin_bits(s.interrupt, p, q);
    lemma_pin_bits(s.select1, p, q);
    lemma_pin_bits(s.select2, p, q);
    lemma_pin_bits(s.level, p, q);
    lemma_pin_bits(s.sysio, p, q);
}

/// Steps that each touch only pin `pin` leave every other pin as it was.
proof fn lemma_steps_other_pins(s: PioStatus, steps: Seq<PioStep>, k: int, pin: u8, j: u8)
    requires
        pin < 32,
        j < 32,
        j != pin,
        0 <= k,
        forall|i: int| 0 <= i < steps.len() ==> touches_only(#[trigger] steps[i], pin),
    ensures
        same_pin(apply_from(s, steps, k), s, j as int),
    decreases steps.len() - k,
{
    if k < steps.len() {
        assert(touches_only(steps[k], pin));
        lemma_step_other_pins(s, steps[k], pin, j);
        lemma_steps_other_pins(apply_step(s, steps[k]), steps, k + 1, pin, j);
    }
}

/// The steps of a mode change each touch only the pin they are for.
proof fn lemma_mode_steps_touch_only(pin: u8, mode: PinMode, sysio: bool)
    ensures
        forall|i: int| 0 <= i < spec_mode_steps(pin, mode, sysio).len()
            ==> touches_only(#[trigger] spec_mode_steps(pin, mode, sysio)[i], pin),
{
}

proof fn lemma_mode_steps_set_the_pin(s: PioStatus, pin: u8, mode: PinMode, sysio: bool)
    requires
        pin < 32,
    ensures
        in_mode(apply_steps(s, spec_mode_steps(pin, mode, sysio)), pin as int, mode),
        sysio ==> pin_set(apply_steps(s, spec_mode_steps(pin, mode, sysio)).sysio, pin as int),
{
    reveal_with_fuel(apply_from, 10);
    let p = pin as u32;
    lemma_pin_bits(s.pio, p, p);
    lemma_pin_bits(s.output, p, p);
    lemma_pin_bits(s.multi_drive, p, p);
    lemma_pin_bits(s.pull_up, p, p);
    lemma_pin_bits(s.pull_down, p, p);
    lemma_pin_bits(s.debounce, p, p);
    lemma_pin_bits(s.interrupt, p, p);
    lemma_pin_bits(s.select1, p, p);
    lemma_pin_bits(s.select2, p, p);
    lemma_pin_bits(s.sysio, p, p);
}

/// Changing the mode of a pin puts that pin into the mode (a system I/O pin also
/// leaves its system function) and leaves every other pin of the controller as it
/// was, whatever the status before.
pub proof fn lemma_mode_change(s: PioStatus, pin: u8, mode: PinMode, sysio: bool, other: u8)
    requires
        pin < 32,
        other < 32,
        other != pin,
    ensures
        in_mode(apply_steps(s, spec_mode_steps(pin, mode, sysio)), pin as int, mode),
        sysio ==> pin_set(apply_steps(s, spec_mode_steps(pin, mode, sysio)).sysio, pin as int),
        same_pin(apply_steps(s, spec_mode_steps(pin, mode, sysio)), s, other as int),
{
    lemma_mode_steps_set_the_pin(s, pin, mode, sysio);
    lemma_mode_steps_touch_only(pin, mode, sysio);
    lemma_steps_other_pins(s, spec_mode_steps(pin, mode, sysio), 0, pin, other);
}

/// The steps that put pin `pin` (0..=31) into `mode`; `sysio` for a system I/O
/// pin.
pub fn mode_steps(pin: u8, mode: PinMode, sysio: bool) -> (r: Vec<PioStep>)
    requires
        pin < 32,
    ensures
        r@ == spec_mode_steps(pin, mode, sysio),
{
    let m: u32 = 1u32 << (pin as u32);
    let mut v: Vec<PioStep> = Vec::new();
    match mode {
        PinMode::PeripheralA | PinMode::PeripheralB | PinMode::PeripheralC | PinMode::PeripheralD => {
            v.push(PioStep::Write(PioRegister::Pudr, m));
            v.push(PioStep::Write(PioRegister::Ppddr, m));
            v.push(PioStep::Write(PioRegister::Mddr, m));
            v.push(PioStep::Write(PioRegister::Ifscdr, m));
        },
        PinMode::FloatingInput | PinMode::PullDownInput | PinMode::PullUpInput => {
            v.push(PioStep::Write(PioRegister::Idr, m));
            v.push(PioStep::Write(PioRegister::Mddr, m));
            v.push(PioStep::Write(PioRegister::Odr, m));
        },
        PinMode::OpenDrainOutput | PinMode::PushPullOutput => {
            v.push(PioStep::Write(PioRegister::Idr, m));
        },
    }
    assert(v@ =~= spec_prepare_steps(pin, mode));
    if sysio {
        v.push(PioStep::SystemFunctionOff(m));
    }
    let ghost middle = v@;
    assert(middle =~= spec_prepare_steps(pin, mode)
        + (if sysio { seq![PioStep::SystemFunctionOff(pin_mask(pin))] } else { Seq::empty() }));
    let (first, second, third) = match mode {
        PinMode::PeripheralA => (
            PioStep::Select { index: 1, set: false, mask: m },
            PioStep::Select { index: 2, set: false, mask: m },
            PioStep::Write(PioRegister::Pdr, m),
        ),
        PinMode::PeripheralB => (
            PioStep::Select { index: 1, set: true, mask: m },
            PioStep::Select { index: 2, set: false, mask: m },
            PioStep::Write(PioRegister::Pdr, m),
        ),
        PinMode::PeripheralC => (
            PioStep::Select { index: 1, set: false, mask: m },
            PioStep::Select { index: 2, set: true, mask: m },
            PioStep::Write(PioRegister::Pdr, m),
        ),
        PinMode::PeripheralD => (
            PioStep::Select { index: 1, set: true, mask: m },
            PioStep::Select { index: 2, set: true, mask: m },
            PioStep::Write(PioRegister::Pdr, m),
        ),
        PinMode::FloatingInput => (
            PioStep::Write(PioRegister::Pudr, m),
            PioStep::Write(PioRegister::Ppddr, m),
            PioStep::Write(PioRegister::Per, m),
        ),
        PinMode::PullDownInput => (
            PioStep::Write(PioRegister::Pudr, m),
            PioStep::Write(PioRegister::Ppder, m),
            PioStep::Write(PioRegister::Per, m),
        ),
        PinMode::PullUpInput => (
            PioStep::Write(PioRegister::Ppddr, m),
            PioStep::Write(PioRegister::Puer, m),
            PioStep::Write(PioRegister::Per, m),
        ),
        PinMode::OpenDrainOutput => (
            PioStep::Write(PioRegister::Mder, m),
            PioStep::Write(PioRegister::Oer, m),
            PioStep::Write(PioRegister::Per, m),
        ),
        PinMode::PushPullOutput => (
            PioStep::Write(PioRegister::Mddr, m),
            PioStep::Write(PioRegister::Oer, m),
            PioStep::Write(PioRegister::Per, m),
        ),
    };
    v.push(first);
    v.push(second);
    v.push(third);
    assert(seq![first, second, third] =~= spec_finish_steps(pin, mode));
    assert(v@ =~= middle + spec_finish_steps(pin, mode));
    v
}

/// Pin `PIN` (0..=31) of a PIO controller in mode `MODE`; `SYSIO` for a pin whose
/// reset function is a system function (JTAG, erase, oscillator), which a mode
/// change turns off.
pub struct Pin<const PIN: u8, const SYSIO: bool, MODE> {
    pub mode: PhantomData<MODE>,
}

impl<const PIN: u8, const SYSIO: bool, MODE> Pin<PIN, SYSIO, MODE> {
    /// The pin as handed out after reset.
    pub fn new() -> (r: Self) {
        Pin { mode: PhantomData }
    }

    fn into_mode<NEW>(self, mode: PinMode) -> (r: (Pin<PIN, SYSIO, NEW>, Vec<PioStep>))
        requires
            PIN < 32,
        ensures
            r.1@ == spec_mode_steps(PIN, mode, SYSIO),
    {
        (Pin { mode: PhantomData }, mode_steps(PIN, mode, SYSIO))
    }

    /// Hands the pin to peripheral function A; the steps to carry out.
    pub fn into_peripheral_function_a(self) -> (r: (Pin<PIN, SYSIO, PfA>, Vec<PioStep>))
        requires PIN < 32,
        ensures r.1@ == spec_mode_steps(PIN, PinMode::PeripheralA, SYSIO),
    {
        self.into_mode(PinMode::PeripheralA)
    }

    /// Hands the pin to peripheral function B.
    pub fn into_peripheral_function_b(self) -> (r: (Pin<PIN, SYSIO, PfB>, Vec<PioStep>))
        requires PIN < 32,
        ensures r.1@ == spec_mode_steps(PIN, PinMode::PeripheralB, SYSIO),
    {
        self.into_mode(PinMode::PeripheralB)
    }

    /// Hands the pin to peripheral function C.
    pub fn into_peripheral_function_c(self) -> (r: (Pin<PIN, SYSIO, PfC>, Vec<PioStep>))
        requires PIN < 32,
        ensures r.1@ == spec_mode_steps(PIN, PinMode::PeripheralC, SYSIO),
    {
        self.into_mode(PinMode::PeripheralC)
    }

    /// Hands the pin to peripheral function D.
    pub fn into_peripheral_function_d(self) -> (r: (Pin<PIN, SYSIO, PfD>, Vec<PioStep>))
        requires PIN < 32,
        ensures r.1@ == spec_mode_steps(PIN, PinMode::PeripheralD, SYSIO),
    {
        self.into_mode(PinMode::PeripheralD)
    }

    /// Makes the pin an input without pull resistor.
    pub fn into_floating_input(self) -> (r: (Pin<PIN, SYSIO, Input<Floating>>, Vec<PioStep>))
        requires PIN < 32,
        ensures r.1@ == spec_mode_steps(PIN, PinMode::FloatingInput, SYSIO),
    {
        self.into_mode(PinMode::FloatingInput)
    }

    /// Makes the pin an input with pull-down resistor.
    pub fn into_pull_down_input(self) -> (r: (Pin<PIN, SYSIO, Input<PullDown>>, Vec<PioStep>))
        requires PIN < 32,
        ensures r.1@ == spec_mode_steps(PIN, PinMode::PullDownInput, SYSIO),
    {
        self.into_mode(PinMode::PullDownInput)
    }

    /// Makes the pin an input with pull-up resistor.
    pub fn into_pull_up_input(self) -> (r: (Pin<PIN, SYSIO, Input<PullUp>>, Vec<PioStep>))
        requires PIN < 32,
        ensures r.1@ == spec_mode_steps(PIN, PinMode::PullUpInput, SYSIO),
    {
        self.into_mode(PinMode::PullUpInput)
    }

    /// Makes the pin an open drain output.
    pub fn into_open_drain_output(self) -> (r: (Pin<PIN, SYSIO, Output<OpenDrain>>, Vec<PioStep>))
        requires PIN < 32,
        ensures r.1@ == spec_mode_steps(PIN, PinMode::OpenDrainOutput, SYSIO),
    {
        self.into_mode(PinMode::OpenDrainOutput)
    }

    /// Makes the pin a push-pull output.
    pub fn into_push_pull_output(self) -> (r: (Pin<PIN, SYSIO, Output<PushPull>>, Vec<PioStep>))
        requires PIN < 32,
        ensures r.1@ == spec_mode_steps(PIN, PinMode::PushPullOutput, SYSIO),
    {
        self.into_mode(PinMode::PushPullOutput)
    }

    /// Hands the pin, unconfigured, to its extra function (no register is written).
    pub fn into_extra_function(self) -> (r: Pin<PIN, SYSIO, ExFn>) {
        Pin { mode: PhantomData }
    }
}

impl<const PIN: u8, MODE> Pin<PIN, true, MODE> {
    /// Gives a system I/O pin back to its system function.
    pub fn into_system_function(self) -> (r: (Pin<PIN, true, SysFn>, PioStep))
        requires PIN < 32,
        ensures r.1 == PioStep::SystemFunctionOn(pin_mask(PIN)),
    {
        (Pin { mode: PhantomData }, PioStep::SystemFunctionOn(1u32 << (PIN as u32)))
    }
}

impl<const PIN: u8, const SYSIO: bool, MODE> Pin<PIN, SYSIO, Output<MODE>> {
    /// Drives the output high: the step to carry out.
    pub fn set_high(&mut self) -> (r: PioStep)
        requires PIN < 32,
        ensures r == PioStep::Write(PioRegister::Sodr, pin_mask(PIN)),
    {
        PioStep::Write(PioRegister::Sodr, 1u32 << (PIN as u32))
    }

    /// Drives the output low: the step to carry out.
    pub fn set_low(&mut self) -> (r: PioStep)
        requires PIN < 32,
        ensures r == PioStep::Write(PioRegister::Codr, pin_mask(PIN)),
    {
        PioStep::Write(PioRegister::Codr, 1u32 << (PIN as u32))
    }

    /// Whether the output is driven high, given `PIO_ODSR`.
    pub fn is_set_high(&self, odsr: u32) -> (r: bool)
        requires PIN < 32,
        ensures r == (odsr & pin_mask(PIN) != 0),
    {
        odsr & (1u32 << (PIN as u32)) != 0
    }
}

impl<const PIN: u8, const SYSIO: bool, MODE> Pin<PIN, SYSIO, Input<MODE>> {
    /// Whether the pin reads high, given `PIO_PDSR`.
    pub fn is_high(&self, pdsr: u32) -> (r: bool)
        requires PIN < 32,
        ensures r == (pdsr & pin_mask(PIN) != 0),
    {
        pdsr & (1u32 << (PIN as u32)) != 0
    }

    /// Whether the pin reads low, given `PIO_PDSR`.
    pub fn is_low(&self, pdsr: u32) -> (r: bool)
        requires PIN < 32,
        ensures r == (pdsr & pin_mask(PIN) == 0),
    {
        pdsr & (1u32 << (PIN as u32)) == 0
    }
}

} // verus!
