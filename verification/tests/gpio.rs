use luhbots::gpio::{mode_steps, Pin, PinMode, PioRegister, PioStep};

const M5: u32 = 1 << 5;

#[test]
fn peripheral_function_steps() {
    assert_eq!(
        mode_steps(5, PinMode::PeripheralB, false),
        vec![
            PioStep::Write(PioRegister::Pudr, M5),
            PioStep::Write(PioRegister::Ppddr, M5),
            PioStep::Write(PioRegister::Mddr, M5),
            PioStep::Write(PioRegister::Ifscdr, M5),
            PioStep::Select { index: 1, set: true, mask: M5 },
            PioStep::Select { index: 2, set: false, mask: M5 },
            PioStep::Write(PioRegister::Pdr, M5),
        ]
    );
}

#[test]
fn system_io_pins_leave_their_system_function() {
    let steps = mode_steps(5, PinMode::PushPullOutput, true);
    assert_eq!(
        steps,
        vec![
            PioStep::Write(PioRegister::Idr, M5),
            PioStep::SystemFunctionOff(M5),
            PioStep::Write(PioRegister::Mddr, M5),
            PioStep::Write(PioRegister::Oer, M5),
            PioStep::Write(PioRegister::Per, M5),
        ]
    );
    let pin: Pin<5, true, ()> = Pin::new();
    let (pin, _) = pin.into_floating_input();
    let (_, step) = pin.into_system_function();
    assert_eq!(step, PioStep::SystemFunctionOn(M5));
}

#[test]
fn input_steps() {
    let pin: Pin<31, false, ()> = Pin::new();
    let (pin, steps) = pin.into_pull_up_input();
    let m = 1u32 << 31;
    assert_eq!(
        steps,
        vec![
            PioStep::Write(PioRegister::Idr, m),
            PioStep::Write(PioRegister::Mddr, m),
            PioStep::Write(PioRegister::Odr, m),
            PioStep::Write(PioRegister::Ppddr, m),
            PioStep::Write(PioRegister::Puer, m),
            PioStep::Write(PioRegister::Per, m),
        ]
    );
    assert!(pin.is_high(0x8000_0000));
    assert!(pin.is_low(0x7FFF_FFFF));
    let (_, steps) = Pin::<0, false, ()>::new().into_pull_down_input();
    assert_eq!(steps[4], PioStep::Write(PioRegister::Ppder, 1));
}

#[test]
fn output_steps() {
    let (mut pin, steps) = Pin::<3, false, ()>::new().into_open_drain_output();
    assert_eq!(
        steps,
        vec![
            PioStep::Write(PioRegister::Idr, 8),
            PioStep::Write(PioRegister::Mder, 8),
            PioStep::Write(PioRegister::Oer, 8),
            PioStep::Write(PioRegister::Per, 8),
        ]
    );
    assert_eq!(pin.set_high(), PioStep::Write(PioRegister::Sodr, 8));
    assert_eq!(pin.set_low(), PioStep::Write(PioRegister::Codr, 8));
    assert!(pin.is_set_high(0xF));
    assert!(!pin.is_set_high(0x7));
}

#[test]
fn peripheral_selects() {
    let selects = |mode| -> Vec<PioStep> { mode_steps(0, mode, false)[4..6].to_vec() };
    let sel = |a: bool, b: bool| vec![
        PioStep::Select { index: 1, set: a, mask: 1 },
        PioStep::Select { index: 2, set: b, mask: 1 },
    ];
    assert_eq!(selects(PinMode::PeripheralA), sel(false, false));
    assert_eq!(selects(PinMode::PeripheralC), sel(false, true));
    assert_eq!(selects(PinMode::PeripheralD), sel(true, true));
    let (_, steps) = Pin::<0, false, ()>::new().into_peripheral_function_a();
    assert_eq!(steps.len(), 7);
}

// Carries out steps on a status.
fn run(mut s: luhbots::gpio::PioStatus, steps: &[PioStep]) -> luhbots::gpio::PioStatus {
    for step in steps {
        match *step {
            PioStep::Write(reg, m) => match reg {
                PioRegister::Per => s.pio |= m,
                PioRegister::Pdr => s.pio &= !m,
                PioRegister::Oer => s.output |= m,
                PioRegister::Odr => s.output &= !m,
                PioRegister::Idr => s.interrupt &= !m,
                PioRegister::Mder => s.multi_drive |= m,
                PioRegister::Mddr => s.multi_drive &= !m,
                PioRegister::Puer => s.pull_up |= m,
                PioRegister::Pudr => s.pull_up &= !m,
                PioRegister::Ppder => s.pull_down |= m,
                PioRegister::Ppddr => s.pull_down &= !m,
                PioRegister::Ifscdr => s.debounce &= !m,
                PioRegister::Sodr => s.level |= m,
                PioRegister::Codr => s.level &= !m,
            },
            PioStep::Select { index, set, mask } => {
                let r = if index == 1 { &mut s.select1 } else { &mut s.select2 };
                if set { *r |= mask } else { *r &= !mask }
            }
            PioStep::SystemFunctionOff(m) => s.sysio |= m,
            PioStep::SystemFunctionOn(m) => s.sysio &= !m,
        }
    }
    s
}

#[test]
fn mode_change_touches_only_its_pin() {
    let all = luhbots::gpio::PioStatus {
        pio: u32::MAX,
        output: u32::MAX,
        multi_drive: u32::MAX,
        pull_up: u32::MAX,
        pull_down: u32::MAX,
        debounce: u32::MAX,
        interrupt: u32::MAX,
        select1: u32::MAX,
        select2: 0,
        level: u32::MAX,
        sysio: 0,
    };
    let s = run(all, &mode_steps(7, PinMode::PushPullOutput, true));
    let m = 1u32 << 7;
    // Pin 7: PIO controlled output, no multi-drive, no interrupt, system function off.
    assert_eq!((s.pio & m, s.output & m, s.multi_drive & m, s.interrupt & m, s.sysio & m), (m, m, 0, 0, m));
    // Every other pin as before.
    assert_eq!((s.multi_drive | m, s.interrupt | m, s.sysio & !m), (u32::MAX, u32::MAX, 0));
    let s = run(all, &mode_steps(0, PinMode::PeripheralC, false));
    assert_eq!((s.pio, s.pull_up, s.pull_down, s.select1, s.select2), (!1, !1, !1, !1, 1));
}
