//! Messages exchanged between the basestation, the main controller and the motor
//! controller of a robot, and the radio sync words.
use vstd::prelude::*;

verus! {

/// Sync word the basestation listens on.
pub const BASESTATION_SYNC_WORD: u32 = 0x9cd6_040c;
/// Sync word every robot listens on.
pub const BROADCAST_SYNC_WORD: u32 = 0xb9d1_6e9c;

/// Messages from the main controller to the motor controller.
#[derive(Debug, PartialEq, Eq, Clone, Copy, Structural)]
pub enum Main2Motor {
    Drive(LocalVelocity),
    /// mm/s
    Kick(u16),
    /// mm/s
    Chip(u16),
    /// us
    KickRaw(u16),
    BallInDribbler,
    BallNotInDribbler,
    CalibrateCapVoltage(u8),
    ChargeHint(KickerChargeHint),
}

/// Messages from the motor controller to the main controller.
#[derive(Debug, PartialEq, Eq, Clone, Copy, Structural)]
pub enum Motor2Main {
    MotorVelocity(LocalVelocity),
    /// V
    CapVoltage(u8),
}

/// Command for one robot, sent by the basestation.
#[derive(Debug, PartialEq, Eq, Clone, Copy, Structural)]
pub struct BasestationToRobot {
    pub id: u8,
    pub team: Team,
    pub movement: MovementSelection,
    pub kicker_charge_hint: KickerChargeHint,
    pub kick_speed: KickSpeedSelection,
    pub kick_type: KickSelection,
    pub dribbler_speed: DribblerSpeedSelection,
    pub robot_position: Option<Position>,
    pub game_state: GameState,
    pub time_sync: Option<TimesyncTimestamp>,
}

/// Feedback of one robot, sent to the basestation.
#[derive(Debug, PartialEq, Eq, Clone, Copy, Structural)]
pub struct RobotToBasestation {
    pub id: u8,
    pub team: Team,
    /// V * 8
    pub battery_voltage: u8,
    /// V
    pub kicker_voltage: u8,
    pub has_ball: BallState,
    pub error: u8,
    /// A * 8
    pub battery_current: Option<u8>,
    /// mAh / 8
    pub battery_capacity_used: Option<u8>,
    /// -dBm
    pub rssi: u8,
    pub velocity: Option<VelocitySelection>,
    pub position: Option<Position>,
    pub firmware_version: SemVersion,
}

#[derive(Debug, PartialEq, Eq, Clone, Copy, Structural)]
pub enum Team {
    Blue,
    Yellow,
}

#[derive(Debug, PartialEq, Eq, Clone, Copy, Structural)]
pub enum GameState {
    Halt,
    Stop,
    Normal,
}

#[derive(Debug, PartialEq, Eq, Clone, Copy, Structural)]
pub enum MovementSelection {
    RobotVelocity(LocalVelocity),
    CameraVelocity(CameraVelocity),
    Position(Position),
}

#[derive(Debug, PartialEq, Eq, Clone, Copy, Structural)]
pub enum KickerChargeHint {
    Charge,
    Discharge,
    DontCare,
}

#[derive(Debug, PartialEq, Eq, Clone, Copy, Structural)]
pub enum KickSpeedSelection {
    /// mm/s
    Relative(u16),
    /// mm/s
    Absolute(u16),
}

#[derive(Debug, PartialEq, Eq, Clone, Copy, Structural)]
pub enum KickSelection {
    Kick,
    Chip,
}

#[derive(Debug, PartialEq, Eq, Clone, Copy, Structural)]
pub enum DribblerSpeedSelection {
    Tristate(DribblerState),
    Percent(u8),
    Rpm(u16),
}

#[derive(Debug, PartialEq, Eq, Clone, Copy, Structural)]
pub enum DribblerState {
    Off,
    Half,
    Full,
}

#[derive(Debug, PartialEq, Eq, Clone, Copy, Structural)]
pub struct Position {
    /// mm
    pub x: i16,
    /// mm
    pub y: i16,
    /// rad * 2^12
    pub theta: u16,
}

#[derive(Debug, PartialEq, Eq, Clone, Copy, Structural)]
pub struct TimesyncTimestamp {
    pub seconds: u32,
    pub fraction: u32,
}

#[derive(Debug, PartialEq, Eq, Clone, Copy, Structural)]
pub enum BallState {
    NotInDribbler,
    InDribbler,
}

#[derive(Debug, PartialEq, Eq, Clone, Copy, Structural)]
pub enum VelocitySelection {
    RobotVelocity(LocalVelocity),
    CameraVelocity(CameraVelocity),
}

#[derive(Debug, PartialEq, Eq, Clone, Copy, Structural)]
pub struct SemVersion {
    pub major: u8,
    pub minor: u8,
    pub patch: u8,
}

#[derive(Debug, PartialEq, Eq, Clone, Copy, Structural)]
pub struct LocalVelocity {
    /// mm/s
    pub forward: i16,
    /// mm/s
    pub left: i16,
    /// rad/s * 2^10
    pub counterclockwise: i16,
}

#[derive(Debug, PartialEq, Eq, Clone, Copy, Structural)]
pub struct CameraVelocity {
    /// mm/s
    pub x: i16,
    /// mm/s
    pub y: i16,
    /// rad/s * 2^10
    pub counterclockwise: i16,
}

/// Version of the communication protocol (the version of this crate).
pub fn version() -> (r: SemVersion)
    ensures r == (SemVersion { major: 0, minor: 3, patch: 0 }),
{
    SemVersion { major: 0, minor: 3, patch: 0 }
}

/// The sync word robot `id` of the blue team listens on.
pub open spec fn spec_robot_blue_sync_word(id: int) -> u32 {
    if id == 0 { 0xab60_615e }
    else if id == 1 { 0x1902_97ab }
    else if id == 2 { 0x56e2_4fb8 }
    else if id == 3 { 0xbfe5_e129 }
    else if id == 4 { 0x1e0c_14e8 }
    else if id == 5 { 0x85e9_cb3a }
    else if id == 6 { 0xe0b4_d33f }
    else if id == 7 { 0x01ae_1bb5 }
    else if id == 8 { 0x42a3_3fa0 }
    else if id == 9 { 0xa273_2908 }
    else if id == 10 { 0x6aeb_d021 }
    else if id == 11 { 0xbbce_a667 }
    else if id == 12 { 0x76e4_a78d }
    else if id == 13 { 0x3ce0_e5d3 }
    else if id == 14 { 0xc66e_0d5c }
    else { 0xfafe_4934 }
}

/// The sync word robot `id` of the yellow team listens on.
pub open spec fn spec_robot_yellow_sync_word(id: int) -> u32 {
    if id == 0 { 0x95da_9603 }
    else if id == 1 { 0xd0eb_1461 }
    else if id == 2 { 0x15ba_5654 }
    else if id == 3 { 0xbb2b_f452 }
    else if id == 4 { 0x2c14_0646 }
    else if id == 5 { 0x62e6_1ebe }
    else if id == 6 { 0xb2d5_4232 }
    else if id == 7 { 0xc692_9a96 }
    else if id == 8 { 0x6366_8943 }
    else if id == 9 { 0x5e7e_eba1 }
    else if id == 10 { 0x254a_8d13 }
    else if id == 11 { 0x1e6b_1077 }
    else if id == 12 { 0x5fae_4041 }
    else if id == 13 { 0x4d45_7592 }
    else if id == 14 { 0x320a_fa60 }
    else { 0x99fb_1ae9 }
}

/// The sync word of blue robot `id` (one of the sixteen robots of a team).
pub fn robot_blue_sync_word(id: u8) -> (r: u32)
    requires id < 16,
    ensures r == spec_robot_blue_sync_word(id as int),
{
    let words: [u32; 16] = [
        0xab60_615e, 0x1902_97ab, 0x56e2_4fb8, 0xbfe5_e129,
        0x1e0c_14e8, 0x85e9_cb3a, 0xe0b4_d33f, 0x01ae_1bb5,
        0x42a3_3fa0, 0xa273_2908, 0x6aeb_d021, 0xbbce_a667,
        0x76e4_a78d, 0x3ce0_e5d3, 0xc66e_0d5c, 0xfafe_4934,
    ];
    words[id as usize]
}

/// The sync word of yellow robot `id` (one of the sixteen robots of a team).
pub fn robot_yellow_sync_word(id: u8) -> (r: u32)
    requires id < 16,
    ensures r == spec_robot_yellow_sync_word(id as int),
{
    let words: [u32; 16] = [
        0x95da_9603, 0xd0eb_1461, 0x15ba_5654, 0xbb2b_f452,
        0x2c14_0646, 0x62e6_1ebe, 0xb2d5_4232, 0xc692_9a96,
        0x6366_8943, 0x5e7e_eba1, 0x254a_8d13, 0x1e6b_1077,
        0x5fae_4041, 0x4d45_7592, 0x320a_fa60, 0x99fb_1ae9,
    ];
    words[id as usize]
}

/// The sync words address each robot apart: no two robots of the two teams share
/// one, and none is the basestation's or the broadcast word.
pub proof fn lemma_sync_words_distinct(i: int, j: int)
    requires
        0 <= i < 16,
        0 <= j < 16,
    ensures
        i != j ==> spec_robot_blue_sync_word(i) != spec_robot_blue_sync_word(j),
        i != j ==> spec_robot_yellow_sync_word(i) != spec_robot_yellow_sync_word(j),
        spec_robot_blue_sync_word(i) != spec_robot_yellow_sync_word(j),
        spec_robot_blue_sync_word(i) != BASESTATION_SYNC_WORD,
        spec_robot_blue_sync_word(i) != BROADCAST_SYNC_WORD,
        spec_robot_yellow_sync_word(i) != BASESTATION_SYNC_WORD,
        spec_robot_yellow_sync_word(i) != BROADCAST_SYNC_WORD,
{
}

} // verus!
