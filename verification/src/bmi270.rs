//! The BMI270 inertial measurement unit: errors of its driver, the register
//! accesses of its start-up and what it decides on the values read back, how its
//! configuration file is addressed while it is loaded, the calibration of the
//! accelerometer's offsets, and how its raw readings become temperatures,
//! accelerations and rotation rates in fixed point (the bits of the `fixed` crate's
//! `I23F9` and `I16F16`).
use vstd::prelude::*;

verus! {

/// Driver errors: of the SPI bus, of the chip select pin, or of the device.
#[derive(Debug)]
pub enum Error<S, P> {
    Spi(S),
    ChipSelectPin(P),
    InvalidConfig,
    InvalidChipId,
    Other,
}

/// The chip identifier a BMI270 reports.
pub const CHIP_ID: u8 = 0x24;

/// Size of the chunks in which the configuration file is written.
pub const CONFIG_CHUNK_SIZE: usize = 1024;

/// The init address of chunk `idx` of the configuration file, in 16-bit words, split
/// into the `INIT_ADDR_1` byte (address bits 4..=11) and the `INIT_ADDR_0` byte
/// (address bits 0..=3).
pub open spec fn spec_chunk_address(idx: usize) -> (u8, u8) {
    let address = ((idx * 1024) / 2) as usize;
    (((address & 0xFF0) >> 4) as u8, (address & 0xF) as u8)
}

/// The init address bytes of configuration chunk `idx`.
pub fn chunk_address(idx: usize) -> (r: (u8, u8))
    requires
        idx * 1024 <= usize::MAX,
    ensures
        r == spec_chunk_address(idx),
{
    let address = (idx * CONFIG_CHUNK_SIZE) / 2;
    let high = (address & 0xFF0) >> 4;
    let low = address & 0xF;
    proof {
        assert(high <= 0xFF && low <= 0xF) by (bit_vector)
            requires high == (address & 0xFF0) >> 4, low == address & 0xF;
    }
    (high as u8, low as u8)
}

/// Register addresses (BMI270 register map).
pub const REG_CHIP_ID: u8 = 0x00;
pub const REG_DATA_8: u8 = 0x0C;
pub const REG_DATA_14: u8 = 0x12;
pub const REG_INTERNAL_STATUS: u8 = 0x21;
pub const REG_TEMPERATURE_0: u8 = 0x22;
pub const REG_FEATURES_5: u8 = 0x35;
pub const REG_ACC_CONF: u8 = 0x40;
pub const REG_ACC_RANGE: u8 = 0x41;
pub const REG_GYR_CONF: u8 = 0x42;
pub const REG_GYR_RANGE: u8 = 0x43;
pub const REG_INT1_IO_CTRL: u8 = 0x53;
pub const REG_INT2_IO_CTRL: u8 = 0x54;
pub const REG_INT_MAP_DATA: u8 = 0x58;
pub const REG_INIT_CTRL: u8 = 0x59;
pub const REG_INIT_ADDR_0: u8 = 0x5B;
pub const REG_INIT_ADDR_1: u8 = 0x5C;
pub const REG_INIT_DATA: u8 = 0x5E;
pub const REG_OFFSET_6: u8 = 0x77;
pub const REG_PWR_CONF: u8 = 0x7C;
pub const REG_PWR_CTRL: u8 = 0x7D;
pub const REG_CMD: u8 = 0x7E;

/// The soft reset command.
pub const CMD_SOFT_RESET: u8 = 0xB6;
/// The `INTERNAL_STATUS` message (its low four bits) of a finished initialisation.
pub const STATUS_INIT_OK: u8 = 0x01;
/// Number of accelerometer readings averaged into the offsets.
pub const ACCEL_OFFSET_SAMPLES: u16 = 2000;

/// One step of the start-up of the device, as the driver carries it out.
#[derive(Clone, Copy, Debug, PartialEq, Eq, Structural)]
pub enum InitOp {
    /// Drive the chip select line high (idle).
    ReleaseChipSelect,
    /// Read a register and ignore the value.
    Read { reg: u8 },
    /// Read the chip identifier and stop with `InvalidChipId` unless `valid_chip_id`.
    CheckChipId,
    /// Write `value` to register `reg`.
    Write { reg: u8, value: u8 },
    /// Wait `ms` milliseconds.
    DelayMs(u16),
    /// From now on wait `us` microseconds after each transfer.
    SetTransferDelay(u16),
    /// Load the configuration file in chunks of `CONFIG_CHUNK_SIZE` bytes, each
    /// chunk's address written first (`chunk_address`).
    LoadConfig,
    /// Read `INTERNAL_STATUS` until `init_status_step` says it is done, waiting
    /// `retry_ms` milliseconds between reads.
    AwaitInitOk { retry_ms: u16 },
    /// Take `samples` accelerometer readings, `interval_us` microseconds apart, and
    /// keep `accel_offsets` of them as the offsets.
    CalibrateOffsets { samples: u16, interval_us: u16 },
}

/// The sensor configuration written once the device is initialised: all sensors
/// on but the auxiliary interface, accelerometer and gyroscope rates and ranges,
/// and the data ready interrupt on both pins.
pub open spec fn spec_init_writes() -> Seq<(u8, u8)> {
    seq![
        (REG_PWR_CTRL, 0x0Eu8),
        (REG_ACC_CONF, 0xA9u8),
        (REG_ACC_RANGE, 0x01u8),
        (REG_GYR_CONF, 0xE9u8),
        (REG_GYR_RANGE, 0x08u8),
        (REG_INT_MAP_DATA, 0x44u8),
        (REG_INT1_IO_CTRL, 0x0Au8),
        (REG_INT2_IO_CTRL, 0x0Au8),
    ]
}

/// The sensor configuration writes, as (register, value) pairs in order.
pub fn init_writes() -> (r: Vec<(u8, u8)>)
    ensures
        r@ == spec_init_writes(),
{
    let r = vec![
        (REG_PWR_CTRL, 0x0Eu8),
        (REG_ACC_CONF, 0xA9u8),
        (REG_ACC_RANGE, 0x01u8),
        (REG_GYR_CONF, 0xE9u8),
        (REG_GYR_RANGE, 0x08u8),
        (REG_INT_MAP_DATA, 0x44u8),
        (REG_INT1_IO_CTRL, 0x0Au8),
        (REG_INT2_IO_CTRL, 0x0Au8),
    ];
    assert(r@ =~= spec_init_writes());
    r
}

/// The start-up up to the sensor configuration: chip select idle, a dummy read,
/// the chip identifier checked, power save off, a soft reset and a second of
/// waiting, a read, power save off again, short transfer pauses from then on, and
/// the configuration file loaded between the two writes of `INIT_CTRL`, followed by
/// waiting for the device to report it initialised.
pub open spec fn spec_init_prefix() -> Seq<InitOp> {
    seq![
        InitOp::ReleaseChipSelect,
        InitOp::Read { reg: REG_CHIP_ID },
        InitOp::CheckChipId,
        InitOp::Write { reg: REG_PWR_CONF, value: 0x00 },
        InitOp::Write { reg: REG_CMD, value: CMD_SOFT_RESET },
        InitOp::DelayMs(1000),
        InitOp::Read { reg: REG_CHIP_ID },
        InitOp::Write { reg: REG_PWR_CONF, value: 0x00 },
        InitOp::SetTransferDelay(2),
        InitOp::Write { reg: REG_INIT_CTRL, value: 0x00 },
        InitOp::LoadConfig,
        InitOp::Write { reg: REG_INIT_CTRL, value: 0x01 },
        InitOp::DelayMs(100),
        InitOp::AwaitInitOk { retry_ms: 100 },
    ]
}

/// After the sensor configuration: the accelerometer offsets are calibrated, then
/// the gyroscope's self offsets are enabled.
pub open spec fn spec_init_suffix() -> Seq<InitOp> {
    seq![
        InitOp::CalibrateOffsets { samples: ACCEL_OFFSET_SAMPLES, interval_us: 5000 },
        InitOp::Write { reg: REG_FEATURES_5, value: 0b010 },
        InitOp::Write { reg: REG_OFFSET_6, value: 0b0100_0000 },
    ]
}

/// The whole start-up of the device: the prefix, each sensor configuration write,
/// and the calibration.
pub open spec fn spec_init_sequence() -> Seq<InitOp> {
    spec_init_prefix()
        + spec_init_writes().map_values(|w: (u8, u8)| InitOp::Write { reg: w.0, value: w.1 })
        + spec_init_suffix()
}

/// The steps of the start-up in order.
pub fn init_sequence() -> (r: Vec<InitOp>)
    ensures
        r@ == spec_init_sequence(),
{
    let mut r = vec![
        InitOp::ReleaseChipSelect,
        InitOp::Read { reg: REG_CHIP_ID },
        InitOp::CheckChipId,
        InitOp::Write { reg: REG_PWR_CONF, value: 0x00 },
        InitOp::Write { reg: REG_CMD, value: CMD_SOFT_RESET },
        InitOp::DelayMs(1000),
        InitOp::Read { reg: REG_CHIP_ID },
        InitOp::Write { reg: REG_PWR_CONF, value: 0x00 },
        InitOp::SetTransferDelay(2),
        InitOp::Write { reg: REG_INIT_CTRL, value: 0x00 },
        InitOp::LoadConfig,
        InitOp::Write { reg: REG_INIT_CTRL, value: 0x01 },
        InitOp::DelayMs(100),
        InitOp::AwaitInitOk { retry_ms: 100 },
    ];
    assert(r@ =~= spec_init_prefix());
    let writes = init_writes();
    let ghost w = writes@;
    let ghost f = |w: (u8, u8)| InitOp::Write { reg: w.0, value: w.1 };
    let mut i: usize = 0;
    while i < writes.len()
        invariant
            i <= writes@.len(),
            writes@ == w,
            w == spec_init_writes(),
            f == (|w: (u8, u8)| InitOp::Write { reg: w.0, value: w.1 }),
            r@ == spec_init_prefix() + w.take(i as int).map_values(f),
        decreases writes@.len() - i,
    {
        let (reg, value) = writes[i];
        r.push(InitOp::Write { reg, value });
        proof {
            assert(w.take(i + 1) =~= w.take(i as int).push(w[i as int]));
            assert(w.take(i + 1).map_values(f) =~= w.take(i as int).map_values(f).push(f(w[i as int])));
        }
        i = i + 1;
    }
    assert(w.take(w.len() as int) =~= w);
    r.push(InitOp::CalibrateOffsets { samples: ACCEL_OFFSET_SAMPLES, interval_us: 5000 });
    r.push(InitOp::Write { reg: REG_FEATURES_5, value: 0b010 });
    r.push(InitOp::Write { reg: REG_OFFSET_6, value: 0b0100_0000 });
    assert(r@ =~= spec_init_sequence());
    r
}

/// What waiting for the initialisation does with a value read from `INTERNAL_STATUS`.
#[derive(Clone, Copy, Debug, PartialEq, Eq, Structural)]
pub enum InitStep {
    /// The device reports its initialisation finished.
    Done,
    /// Anything else: wait and read again.
    Retry,
}

/// Done exactly when the status message (the low four bits) is "initialisation OK".
pub open spec fn spec_init_step(status: u8) -> InitStep {
    if status & 0x0F == STATUS_INIT_OK { InitStep::Done } else { InitStep::Retry }
}

/// Decides on a value read from `INTERNAL_STATUS` while waiting for the start-up.
pub fn init_status_step(status: u8) -> (r: InitStep)
    ensures
        r == spec_init_step(status),
{
    if status & 0x0F == STATUS_INIT_OK { InitStep::Done } else { InitStep::Retry }
}

/// Whether an integer fits in an `i32`.
pub open spec fn fits_i32(v: int) -> bool {
    i32::MIN <= v <= i32::MAX
}

/// `fixed::types::I16F16::checked_add` on the values with bits `a` and `b`: the
/// sum of the bits when it fits, none otherwise (its source adds the bits with the
/// integer `checked_add`).
#[verifier::external_body]
fn i16f16_checked_add(a: i32, b: i32) -> (r: Option<i32>)
    ensures
        r == (if fits_i32(a + b) { Some((a + b) as i32) } else { None::<i32> }),
{
    match fixed::types::I16F16::from_bits(a).checked_add(fixed::types::I16F16::from_bits(b)) {
        Some(v) => Some(v.to_bits()),
        None => None,
    }
}

/// Integer division rounding toward zero, for a positive divisor.
pub open spec fn trunc_div(a: int, n: int) -> int {
    if a >= 0 { a / n } else { -((-a) / n) }
}

/// `I16F16 / i32` (`fixed`'s `Div<i32>`) on the value with bits `bits`: its source
/// divides the bits by the integer, which rounds toward zero.
#[verifier::external_body]
fn i16f16_div_int(bits: i32, n: i32) -> (r: i32)
    requires
        n > 0,
    ensures
        r == trunc_div(bits as int, n as int),
{
    (fixed::types::I16F16::from_bits(bits) / n).to_bits()
}

/// The running sums of the x and y readings of `s`, as `I16F16` additions that
/// must each fit; none when one of them overflows.
pub open spec fn spec_offset_sums(s: Seq<(i32, i32)>) -> Option<(int, int)>
    decreases s.len(),
{
    if s.len() == 0 {
        Some((0, 0))
    } else {
        match spec_offset_sums(s.drop_last()) {
            Some((x, y)) => {
                let nx = x + s.last().0;
                let ny = y + s.last().1;
                if fits_i32(nx) && fits_i32(ny) { Some((nx, ny)) } else { None }
            },
            None => None,
        }
    }
}

/// The accelerometer offsets from the readings `s` (x and y bits of each): the
/// mean of each axis, the sum divided by the number of readings rounding toward
/// zero; none when a running sum overflows.
pub open spec fn spec_accel_offsets(s: Seq<(i32, i32)>) -> Option<(i32, i32)> {
    match spec_offset_sums(s) {
        Some((x, y)) => Some((trunc_div(x, s.len() as int) as i32, trunc_div(y, s.len() as int) as i32)),
        None => None,
    }
}

/// Averages the x and y accelerometer readings taken for calibration.
pub fn accel_offsets(samples: &[(i32, i32)]) -> (r: Option<(i32, i32)>)
    requires
        samples@.len() > 0,
        samples@.len() <= i32::MAX,
    ensures
        r == spec_accel_offsets(samples@),
{
    let mut sum_x: i32 = 0;
    let mut sum_y: i32 = 0;
    let mut i: usize = 0;
    while i < samples.len()
        invariant
            i <= samples@.len(),
            spec_offset_sums(samples@.take(i as int)) == Some((sum_x as int, sum_y as int)),
        decreases samples@.len() - i,
    {
        let (x, y) = samples[i];
        proof {
            assert(samples@.take(i + 1).drop_last() =~= samples@.take(i as int));
        }
        let nx = match i16f16_checked_add(sum_x, x) {
            Some(v) => v,
            None => {
                proof { lemma_offset_sums_none(samples@, i + 1); }
                return None;
            },
        };
        let ny = match i16f16_checked_add(sum_y, y) {
            Some(v) => v,
            None => {
                proof { lemma_offset_sums_none(samples@, i + 1); }
                return None;
            },
        };
        sum_x = nx;
        sum_y = ny;
        i = i + 1;
    }
    assert(samples@.take(samples@.len() as int) =~= samples@);
    let n = samples.len() as i32;
    Some((i16f16_div_int(sum_x, n), i16f16_div_int(sum_y, n)))
}

/// Once a running sum overflows, every longer run of the readings overflows too.
proof fn lemma_offset_sums_none(s: Seq<(i32, i32)>, k: int)
    requires
        0 <= k <= s.len(),
        spec_offset_sums(s.take(k)) is None,
    ensures
        spec_offset_sums(s) is None,
    decreases s.len() - k,
{
    if k < s.len() {
        assert(s.take(k + 1).drop_last() =~= s.take(k));
        lemma_offset_sums_none(s, k + 1);
    } else {
        assert(s.take(k) =~= s);
    }
}

/// Whether a chip identifier read from the device is a BMI270's.
pub fn valid_chip_id(id: u8) -> (r: bool)
    ensures r == (id == CHIP_ID),
{
    id == CHIP_ID
}

/// Register address byte of a write (bit 7 clear) and of a read (bit 7 set).
pub fn write_address(reg: u8) -> (r: u8)
    ensures r == reg & 0x7F,
{
    reg & 0x7F
}

/// Register address byte of a read (bit 7 set).
pub fn read_address(reg: u8) -> (r: u8)
    ensures r == reg | 0x80,
{
    reg | 0x80
}

/// The temperature in degrees Celsius, as the bits of a `fixed::types::I23F9`
/// (9 fractional bits).
#[derive(Clone, Copy, Debug, PartialEq, Eq, Structural)]
pub struct Temperature(pub i32);

/// Rotation rates about the three axes, as the bits of `fixed::types::I16F16`
/// values (16 fractional bits).
#[derive(Clone, Copy, Debug, PartialEq, Eq, Structural)]
pub struct Gyro {
    pub x: i32,
    pub y: i32,
    pub z: i32,
}

/// Accelerations along the three axes in m/s², as the bits of `fixed::types::I16F16`
/// values (16 fractional bits).
#[derive(Clone, Copy, Debug, PartialEq, Eq, Structural)]
pub struct Accel {
    pub x: i32,
    pub y: i32,
    pub z: i32,
}

/// The `I16F16` that `fixed::types::I16F16::from_str` parses from a decimal text
/// (rounded to the nearest, ties to even), by its bits; none when the text does not
/// parse or the value does not fit.
pub uninterp spec fn spec_i16f16_from_str(s: Seq<char>) -> Option<i32>;

/// Whether a text is a nonempty run of decimal digits.
pub open spec fn is_decimal_digits(s: Seq<char>) -> bool {
    s.len() > 0 && forall|i: int| 0 <= i < s.len() ==> '0' <= #[trigger] s[i] <= '9'
}

/// The value of a run of decimal digits.
pub open spec fn decimal_value(s: Seq<char>) -> int
    decreases s.len(),
{
    if s.len() == 0 {
        0
    } else {
        decimal_value(s.drop_last()) * 10 + (s.last() as int - '0' as int)
    }
}

/// Parses decimal text into an `I16F16` with `fixed::types::I16F16::from_str` and
/// returns its bits. The result is named; beyond that it is claimed only that a
/// whole number written in plain digits that fits is parsed exactly (no rounding
/// happens there), its bits being the number times 2^16.
#[verifier::external_body]
fn i16f16_from_str(s: &str) -> (r: Option<i32>)
    ensures
        r == spec_i16f16_from_str(s@),
        is_decimal_digits(s@) && decimal_value(s@) < 0x8000 ==> r == Some((decimal_value(s@) * 65536) as i32),
{
    match fixed::types::I16F16::from_str(s) {
        Ok(v) => Some(v.to_bits()),
        Err(_) => None,
    }
}

/// Whether the product of two `I16F16` values given by their bits `a` and `b` is
/// representable: the double-width product `a × b × 2^16` fits in an `i64`, which
/// is exactly when the rounded product fits in an `i32`.
pub open spec fn spec_mul_fits(a: int, b: int) -> bool {
    -0x8000_0000_0000 <= a * b && a * b < 0x8000_0000_0000
}

/// `fixed::types::I16F16::checked_mul` on the values with bits `a` and `b`: claimed
/// of it (its source computes `(a × (b << 16)) >> 32` in `i64` and reports the
/// overflow of that multiplication) that it gives the product rounded down to 16
/// fractional bits when it fits, and none otherwise.
#[verifier::external_body]
fn i16f16_checked_mul(a: i32, b: i32) -> (r: Option<i32>)
    ensures
        r == (if spec_mul_fits(a as int, b as int) { Some(((a * b) / 65536) as i32) } else { None::<i32> }),
{
    match fixed::types::I16F16::from_bits(a).checked_mul(fixed::types::I16F16::from_bits(b)) {
        Some(v) => Some(v.to_bits()),
        None => None,
    }
}

/// `fixed::types::I16F16::div_euclid_int` on the value with bits `bits`: claimed of
/// it that for a positive divisor it gives the integer part of the Euclidean
/// quotient (the quotient rounded down to a whole number), as `I16F16` bits.
#[verifier::external_body]
fn i16f16_div_euclid_int(bits: i32, divisor: i32) -> (r: i32)
    requires
        divisor > 0,
    ensures
        r == ((bits as int) / (divisor as int * 65536)) * 65536,
{
    fixed::types::I16F16::from_bits(bits).div_euclid_int(divisor).to_bits()
}

/// `fixed::types::I23F9::strict_from_num` on a whole number that fits: claimed of it
/// that the number is exact, so its bits are `n × 2^9`.
#[verifier::external_body]
fn i23f9_from_int(n: i32) -> (r: i32)
    requires
        -0x40_0000 <= n < 0x40_0000,
    ensures
        r == n * 512,
{
    fixed::types::I23F9::strict_from_num(n).to_bits()
}

/// A little-endian 16-bit two's complement reading.
pub open spec fn spec_le_i16(lo: u8, hi: u8) -> int {
    lo + 256 * hi - (if hi >= 128 { 65536int } else { 0int })
}

/// Reads a little-endian 16-bit two's complement value.
fn le_i16(lo: u8, hi: u8) -> (r: i32)
    ensures
        r == spec_le_i16(lo, hi),
        -32768 <= r < 32768,
{
    let v: i32 = (lo as i32) + 256 * (hi as i32);
    if hi >= 128 { v - 65536 } else { v }
}

/// A raw reading taken as an `I16F16` fraction of full scale (the reading shifted
/// left by one bit, so that full scale is 1) times `factor`: none when the product
/// does not fit.
pub open spec fn spec_scaled(raw: int, factor: i32) -> Option<i32> {
    if spec_mul_fits(2 * raw, factor as int) {
        Some(((2 * raw * factor) / 65536) as i32)
    } else {
        None
    }
}

/// Scales a raw reading by `factor`.
fn scaled(raw: i32, factor: i32) -> (r: Option<i32>)
    requires
        -32768 <= raw < 32768,
    ensures
        r == spec_scaled(raw as int, factor),
{
    let doubled: i32 = raw * 2;
    i16f16_checked_mul(doubled, factor)
}

/// The gyroscope's full scale: 2000 (degrees per second) divided by 360 with
/// `div_euclid_int`, which keeps the whole part of the quotient only: 5, as
/// `I16F16` bits.
pub open spec fn spec_gyro_range() -> Option<i32> {
    Some(327680i32)
}

/// The gyroscope's full scale as an `I16F16`, by its bits.
pub fn gyro_range() -> (r: Option<i32>)
    ensures
        r == spec_gyro_range(),
{
    proof {
        reveal_strlit("2000");
        let t = "2000"@;
        assert(t =~= seq!['2', '0', '0', '0']);
        assert(is_decimal_digits(t));
        assert(decimal_value(t.drop_last().drop_last().drop_last().drop_last()) == 0);
        assert(decimal_value(t.drop_last().drop_last().drop_last()) == 2);
        assert(decimal_value(t.drop_last().drop_last()) == 20);
        assert(decimal_value(t.drop_last()) == 200);
        assert(decimal_value(t) == 2000);
    }
    match i16f16_from_str("2000") {
        Some(v) => Some(i16f16_div_euclid_int(v, 360)),
        None => None,
    }
}

/// The accelerometer's full scale times standard gravity: 4 × 9.80665 (m/s²), the
/// product taken as `I16F16` values.
pub open spec fn spec_accel_factor() -> Option<i32> {
    match (spec_i16f16_from_str("4"@), spec_i16f16_from_str("9.80665"@)) {
        (Some(range), Some(g)) =>
            if spec_mul_fits(range as int, g as int) {
                Some(((range * g) / 65536) as i32)
            } else {
                None
            },
        _ => None,
    }
}

/// The accelerometer's scale factor as an `I16F16`, by its bits.
pub fn accel_factor() -> (r: Option<i32>)
    ensures
        r == spec_accel_factor(),
{
    let range = match i16f16_from_str("4") {
        Some(v) => v,
        None => return None,
    };
    let g = match i16f16_from_str("9.80665") {
        Some(v) => v,
        None => return None,
    };
    i16f16_checked_mul(range, g)
}

/// The rotation rates in six bytes of data (x, y, z, each little endian), each
/// scaled by `range`; none when a product does not fit.
pub open spec fn spec_gyro(data: Seq<u8>, range: i32) -> Option<Gyro> {
    match (
        spec_scaled(spec_le_i16(data[0], data[1]), range),
        spec_scaled(spec_le_i16(data[2], data[3]), range),
        spec_scaled(spec_le_i16(data[4], data[5]), range),
    ) {
        (Some(x), Some(y), Some(z)) => Some(Gyro { x, y, z }),
        _ => None,
    }
}

/// One acceleration: the scaled reading less the offset; none when it does not fit.
pub open spec fn spec_accel_axis(raw: int, factor: i32, offset: i32) -> Option<i32> {
    match spec_scaled(raw, factor) {
        Some(v) => if i32::MIN <= v - offset <= i32::MAX { Some((v - offset) as i32) } else { None },
        None => None,
    }
}

/// The accelerations in six bytes of data (x, y, z, each little endian), scaled by
/// `factor`, with the offsets taken off x and y; none when a value does not fit.
pub open spec fn spec_accel(data: Seq<u8>, offsets: (i32, i32), factor: i32) -> Option<Accel> {
    match (
        spec_accel_axis(spec_le_i16(data[0], data[1]), factor, offsets.0),
        spec_accel_axis(spec_le_i16(data[2], data[3]), factor, offsets.1),
        spec_scaled(spec_le_i16(data[4], data[5]), factor),
    ) {
        (Some(x), Some(y), Some(z)) => Some(Accel { x, y, z }),
        _ => None,
    }
}

/// One acceleration from its raw reading.
fn accel_axis(raw: i32, factor: i32, offset: i32) -> (r: Option<i32>)
    requires
        -32768 <= raw < 32768,
    ensures
        r == spec_accel_axis(raw as int, factor, offset),
{
    match scaled(raw, factor) {
        Some(v) => v.checked_sub(offset),
        None => None,
    }
}

impl Gyro {
    /// The rotation rates in the first six bytes of `data`, scaled by `range`.
    pub fn from_bytes_with_range(data: &[u8], range: i32) -> (r: Option<Gyro>)
        requires
            data@.len() >= 6,
        ensures
            r == spec_gyro(data@, range),
    {
        let x = match scaled(le_i16(data[0], data[1]), range) {
            Some(v) => v,
            None => return None,
        };
        let y = match scaled(le_i16(data[2], data[3]), range) {
            Some(v) => v,
            None => return None,
        };
        let z = match scaled(le_i16(data[4], data[5]), range) {
            Some(v) => v,
            None => return None,
        };
        Some(Gyro { x, y, z })
    }

    /// The rotation rates in the first six bytes of `data`, in degrees per second
    /// (scaled by `gyro_range`).
    pub fn from_bytes(data: &[u8]) -> (r: Option<Gyro>)
        requires
            data@.len() >= 6,
        ensures
            r == (match spec_gyro_range() {
                Some(range) => spec_gyro(data@, range),
                None => None,
            }),
    {
        match gyro_range() {
            Some(range) => Gyro::from_bytes_with_range(data, range),
            None => None,
        }
    }
}

impl Accel {
    /// The accelerations in the first six bytes of `data`, scaled by `factor`, less
    /// the offsets on x and y.
    pub fn from_bytes_with_factor(data: &[u8], offsets: (i32, i32), factor: i32) -> (r: Option<Accel>)
        requires
            data@.len() >= 6,
        ensures
            r == spec_accel(data@, offsets, factor),
    {
        let x = match accel_axis(le_i16(data[0], data[1]), factor, offsets.0) {
            Some(v) => v,
            None => return None,
        };
        let y = match accel_axis(le_i16(data[2], data[3]), factor, offsets.1) {
            Some(v) => v,
            None => return None,
        };
        let z = match scaled(le_i16(data[4], data[5]), factor) {
            Some(v) => v,
            None => return None,
        };
        Some(Accel { x, y, z })
    }

    /// The accelerations in the first six bytes of `data` in m/s² (scaled by
    /// `accel_factor`), less the offsets on x and y.
    pub fn from_bytes(data: &[u8], offsets: (i32, i32)) -> (r: Option<Accel>)
        requires
            data@.len() >= 6,
        ensures
            r == (match spec_accel_factor() {
                Some(factor) => spec_accel(data@, offsets, factor),
                None => None,
            }),
    {
        match accel_factor() {
            Some(factor) => Accel::from_bytes_with_factor(data, offsets, factor),
            None => None,
        }
    }
}

/// Both readings of a burst read of twelve bytes: the accelerations, then the
/// rotation rates.
pub fn accel_and_gyro_from_bytes(data: &[u8], offsets: (i32, i32)) -> (r: Option<(Accel, Gyro)>)
    requires
        data@.len() >= 12,
    ensures
        r == (match (spec_accel_factor(), spec_gyro_range()) {
            (Some(factor), Some(range)) => match (
                spec_accel(data@, offsets, factor),
                spec_gyro(data@.subrange(6, 12), range),
            ) {
                (Some(a), Some(g)) => Some((a, g)),
                _ => None,
            },
            _ => None,
        }),
{
    let accel = match Accel::from_bytes(data, offsets) {
        Some(a) => a,
        None => return None,
    };
    let tail = slice_from(data, 6);
    let gyro = match Gyro::from_bytes(tail.as_slice()) {
        Some(g) => g,
        None => return None,
    };
    Some((accel, gyro))
}

/// The bytes of `data` from `start` on.
fn slice_from(data: &[u8], start: usize) -> (r: Vec<u8>)
    requires
        start <= data@.len(),
    ensures
        r@ == data@.subrange(start as int, data@.len() as int),
{
    let mut out: Vec<u8> = Vec::new();
    let mut i: usize = start;
    while i < data.len()
        invariant
            start <= i <= data@.len(),
            out@ == data@.subrange(start as int, i as int),
        decreases data@.len() - i,
    {
        out.push(data[i]);
        i = i + 1;
        assert(out@ =~= data@.subrange(start as int, i as int));
    }
    out
}

/// The temperature a reading stands for: the reading is the temperature above
/// 23 °C in units of 2^-9 °C.
pub open spec fn spec_temperature(lo: u8, hi: u8) -> Temperature {
    Temperature((spec_le_i16(lo, hi) + 23 * 512) as i32)
}

impl Temperature {
    /// The temperature in the two bytes (little endian) of the temperature register.
    pub fn from_bytes(lo: u8, hi: u8) -> (r: Temperature)
        ensures
            r == spec_temperature(lo, hi),
    {
        let raw = le_i16(lo, hi);
        let offset = i23f9_from_int(23);
        Temperature(raw + offset)
    }
}

} // verus!
