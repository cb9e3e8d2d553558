use luhbots::dribbler::dshot::{
    clock_divider, command_value, decode_extended_telemetry, decode_gcr, decode_telemetry,
    decode_telemetry_bits, frame_value, Dshot, DshotCommand, DshotFrame, Telemetry, Version,
    Version300, Version600,
};
use luhbots::dribbler::Dribbler;

fn gcr(n: u32) -> u32 {
    [0x19, 0x1B, 0x12, 0x13, 0x1D, 0x15, 0x16, 0x17, 0x1A, 0x09, 0x0A, 0x0B, 0x1E, 0x0D, 0x0E, 0x0F][n as usize]
}

// Builds the 21 received line bits of a 16 bit telemetry word.
fn line_bits(word: u16) -> u32 {
    let w = word as u32;
    let g = gcr(w & 0xF) | gcr((w >> 4) & 0xF) << 5 | gcr((w >> 8) & 0xF) << 10 | gcr((w >> 12) & 0xF) << 15;
    // Each line bit is the exclusive or of the code bit and the next line bit.
    let mut line = 0u32;
    for i in (0..20).rev() {
        let next = (line >> (i + 1)) & 1;
        let bit = ((g >> i) & 1) ^ next;
        line |= bit << i;
    }
    line
}

fn with_checksum(payload: u16) -> u16 {
    let v = payload << 4;
    let c = ((v >> 4) ^ (v >> 8) ^ (v >> 12)) & 0xF;
    v | (c ^ 0xF)
}

#[test]
fn command_values() {
    assert_eq!(command_value(DshotCommand::Disarm), 0);
    assert_eq!(command_value(DshotCommand::SignalLineErpmPeriodTelemetry), 47);
    assert_eq!(command_value(DshotCommand::Throttle(0)), 48);
    assert_eq!(command_value(DshotCommand::Throttle(1999)), 2047);
}

#[test]
fn frames() {
    // Throttle 1046 (value 1094): 0x88C0 with checksum 8 ^ 8 ^ 0xC = 0xC.
    let f = frame_value(DshotFrame { command: DshotCommand::Throttle(1046), telemetry: false });
    assert_eq!(f, 0x88CC);
    assert_eq!(f >> 5, 1094);
    // Special commands carry the telemetry bit.
    let f = frame_value(DshotFrame { command: DshotCommand::Beep1, telemetry: false });
    assert_eq!(f, 0x0033);
    assert_eq!(frame_value(DshotFrame { command: DshotCommand::Disarm, telemetry: true }), 0);
}

#[test]
fn gcr_codes() {
    for n in 0..16u32 {
        assert_eq!(decode_gcr(gcr(n)), Some(n as u8));
        assert_eq!(decode_gcr(gcr(n) | 0xFFE0), Some(n as u8));
    }
    assert_eq!(decode_gcr(0), None);
    assert_eq!(decode_gcr(0x1F), None);
}

#[test]
fn telemetry_frames() {
    let word = with_checksum(0x5A3);
    assert_eq!(decode_telemetry_bits(line_bits(word)), Some(0x5A3));
    // Period: mantissa 0x1A3 shifted by exponent 2.
    assert_eq!(decode_telemetry(line_bits(word)), Some(0x1A3 << 2));
    // A wrong checksum is refused.
    assert_eq!(decode_telemetry_bits(line_bits(word ^ 0x1)), None);
    assert_eq!(decode_telemetry_bits(0), None);
    assert_eq!(decode_extended_telemetry(line_bits(with_checksum(0x21E))), Some(Telemetry::Temperature(0x1E)));
    assert_eq!(decode_extended_telemetry(line_bits(with_checksum(0x4A0))), Some(Telemetry::Voltage(0xA0)));
    assert_eq!(decode_extended_telemetry(line_bits(with_checksum(0xE07))), Some(Telemetry::StateEvent(7)));
    assert_eq!(decode_extended_telemetry(line_bits(with_checksum(0x305))), Some(Telemetry::Erpm(0x105 << 1)));
}

#[test]
fn dividers() {
    // 125 MHz / (300 kHz * 8) = 52 + 200 kHz left over, 200/2400 * 256 = 21.3.
    assert_eq!(clock_divider(125_000_000, 2_400_000), (52, 21));
    assert_eq!(clock_divider(65536, 1), (0, 0));
    assert_eq!(Version::Dshot600.frequency(), 600_000);
}

#[test]
fn driver_queues_frames() {
    let mut d = Dshot::<_, Version600>::new(125_000_000);
    assert_eq!(d.divider(), (26, 10));
    d.throttle(2000);
    assert!(d.take_frames().is_empty());
    d.throttle(0);
    d.disarm();
    d.spin_direction1();
    let frames = d.take_frames();
    assert_eq!(frames.len(), 12);
    assert_eq!(frames[0], frame_value(DshotFrame { command: DshotCommand::Throttle(0), telemetry: false }));
    assert_eq!(frames[1], 0);
    assert!(frames[2..].iter().all(|f| *f == 0x00FF));
    // Dribbler speed: the u16 range divided by 32.
    d.send(3200);
    assert_eq!(d.take_frames(), vec![frame_value(DshotFrame { command: DshotCommand::Throttle(100), telemetry: false })]);
}

#[test]
fn bidirectional_mode() {
    let d = Dshot::<_, Version300>::new(125_000_000);
    let mut b = d.enable_telemetry();
    assert_eq!(b.divider(), (10, 106));
    let frames = b.take_frames();
    assert_eq!(frames.len(), 10);
    assert_eq!(frames[0], frame_value(DshotFrame { command: DshotCommand::EnableSignalLineTelemetry, telemetry: false }));
    b.led0_on();
    // The checksum is inverted on the bidirectional line.
    assert_eq!(b.take_frames(), vec![frame_value(DshotFrame { command: DshotCommand::Led0On, telemetry: false }) ^ 0xF]);
    b.read_telemetry(line_bits(with_checksum(0x5A3)));
    assert_eq!(b.erpm_period(), 0x1A3 << 2);
    b.read_telemetry(0);
    assert_eq!(b.erpm_period(), 0x1A3 << 2);
    let u = b.disable_telemetry();
    assert_eq!(u.erpm_period(), 0x1A3 << 2);
}
