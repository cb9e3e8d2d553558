use luhbots::bmi270::{
    accel_and_gyro_from_bytes, accel_factor, accel_offsets, chunk_address, gyro_range,
    init_sequence, init_status_step, init_writes, read_address, valid_chip_id, write_address,
    Accel, Error, Gyro, InitOp, InitStep, Temperature, CHIP_ID, REG_CHIP_ID, REG_OFFSET_6,
    REG_PWR_CTRL,
};

#[test]
fn configuration_chunk_addresses() {
    // Addresses count 16-bit words: chunk k starts at word 512 * k.
    assert_eq!(chunk_address(0), (0, 0));
    assert_eq!(chunk_address(1), (0x20, 0));
    assert_eq!(chunk_address(7), (0xE0, 0));
}

#[test]
fn register_addresses() {
    assert_eq!(write_address(0xFC), 0x7C);
    assert_eq!(read_address(0x00), 0x80);
    assert!(valid_chip_id(CHIP_ID));
    assert!(!valid_chip_id(0x00));
    let e: Error<(), ()> = Error::InvalidChipId;
    assert!(matches!(e, Error::InvalidChipId));
}

#[test]
fn scale_constants() {
    // 2000 / 360 keeps only its whole part with div_euclid_int: 5.
    assert_eq!(gyro_range(), Some(5 << 16));
    // 4 * 9.80665, with 9.80665 rounded to 642689 / 2^16.
    assert_eq!(accel_factor(), Some(2570756));
}

#[test]
fn gyro_readings_are_scaled() {
    // x = 1000, y = -1000, z = 32767, little endian.
    let data = [0xE8, 0x03, 0x18, 0xFC, 0xFF, 0x7F];
    assert_eq!(Gyro::from_bytes(&data), Some(Gyro { x: 10000, y: -10000, z: 327670 }));
    // A product that does not fit gives nothing: -65536 * i32::MIN is 2^47.
    assert_eq!(Gyro::from_bytes_with_range(&[0, 0, 0, 0, 0x00, 0x80], i32::MIN), None);
    assert_eq!(
        Gyro::from_bytes_with_range(&[0, 0, 0, 0, 0x00, 0x80], i32::MIN + 1),
        Some(Gyro { x: 0, y: 0, z: i32::MAX })
    );
}

#[test]
fn accel_readings_are_scaled_rounded_down_and_offset() {
    // x = 1000, y = -1000, z = -32768.
    let data = [0xE8, 0x03, 0x18, 0xFC, 0x00, 0x80];
    assert_eq!(
        Accel::from_bytes(&data, (0, 0)),
        Some(Accel { x: 78453, y: -78454, z: -2570756 })
    );
    assert_eq!(
        Accel::from_bytes(&data, (53, -46)),
        Some(Accel { x: 78400, y: -78408, z: -2570756 })
    );
    assert_eq!(Accel::from_bytes(&data, (i32::MIN, 0)), None);
}

#[test]
fn burst_reading_holds_accel_then_gyro() {
    let data = [0xE8, 0x03, 0x18, 0xFC, 0x00, 0x80, 0xE8, 0x03, 0x18, 0xFC, 0xFF, 0x7F];
    assert_eq!(
        accel_and_gyro_from_bytes(&data, (0, 0)),
        Some((
            Accel { x: 78453, y: -78454, z: -2570756 },
            Gyro { x: 10000, y: -10000, z: 327670 }
        ))
    );
}

#[test]
fn temperature_is_relative_to_23_degrees() {
    // 2^-9 degree units: 512 is one degree above 23.
    assert_eq!(Temperature::from_bytes(0x00, 0x02), Temperature(24 * 512));
    assert_eq!(Temperature::from_bytes(0x00, 0xFE), Temperature(22 * 512));
    assert_eq!(Temperature::from_bytes(0x00, 0x00), Temperature(23 * 512));
}

#[test]
fn start_up_waits_for_init_ok() {
    assert_eq!(init_status_step(0x01), InitStep::Done);
    // Only the message bits count.
    assert_eq!(init_status_step(0x31), InitStep::Done);
    assert_eq!(init_status_step(0x00), InitStep::Retry);
    assert_eq!(init_status_step(0x02), InitStep::Retry);
}

#[test]
fn sensor_configuration_writes() {
    assert_eq!(
        init_writes(),
        vec![(0x7D, 0x0E), (0x40, 0xA9), (0x41, 0x01), (0x42, 0xE9), (0x43, 0x08), (0x58, 0x44), (0x53, 0x0A), (0x54, 0x0A)]
    );
}

#[test]
fn start_up_sequence() {
    let ops = init_sequence();
    assert_eq!(ops.len(), 25);
    assert_eq!(&ops[..3], &[InitOp::ReleaseChipSelect, InitOp::Read { reg: REG_CHIP_ID }, InitOp::CheckChipId][..]);
    assert_eq!(ops[4], InitOp::Write { reg: 0x7E, value: 0xB6 });
    assert_eq!(ops[10], InitOp::LoadConfig);
    assert_eq!(ops[13], InitOp::AwaitInitOk { retry_ms: 100 });
    assert_eq!(ops[14], InitOp::Write { reg: REG_PWR_CTRL, value: 0x0E });
    assert_eq!(ops[22], InitOp::CalibrateOffsets { samples: 2000, interval_us: 5000 });
    assert_eq!(ops[24], InitOp::Write { reg: REG_OFFSET_6, value: 0x40 });
}

#[test]
fn accel_offsets_are_means_rounded_toward_zero() {
    assert_eq!(accel_offsets(&[(7, -7)]), Some((7, -7)));
    // 30 / 2 and -31 / 2.
    assert_eq!(accel_offsets(&[(10, -10), (20, -21)]), Some((15, -15)));
    assert_eq!(accel_offsets(&[(i32::MAX, 0), (1, 0)]), None);
    assert_eq!(accel_offsets(&[(0, i32::MIN), (0, -1)]), None);
}
