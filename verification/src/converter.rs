//! Conversion between the server's packets (as seen by the basestation, with their
//! real-valued quantities already scaled to the fixed-point units of the radio
//! protocol) and the packets sent over the radio.
use vstd::prelude::*;
use crate::definitions::{
    BallState, BasestationToRobot, CameraVelocity, DribblerSpeedSelection, DribblerState,
    GameState, KickSelection, KickSpeedSelection, KickerChargeHint, LocalVelocity,
    MovementSelection, Position, RobotToBasestation, SemVersion, Team, VelocitySelection,
};

verus! {

/// Team colour as named by the server.
#[derive(Debug, PartialEq, Eq, Clone, Copy, Structural)]
pub enum TeamColor {
    Blue,
    Yellow,
}

/// Movement request of a server packet, in radio units (mm, mm/s, rad/s * 2^10, and
/// rad * 2^12 for a position's angle).
#[derive(Debug, PartialEq, Eq, Clone, Copy, Structural)]
pub enum Movement {
    LocalVelocity(LocalVelocity),
    GlobalVelocity(CameraVelocity),
    GlobalPosition(Position),
}

/// Kicker charge hint as named by the server.
#[derive(Debug, PartialEq, Eq, Clone, Copy, Structural)]
pub enum ChargeHint {
    Charge,
    Discharge,
    DontCare,
}

/// Kicking speed of a server packet in mm/s (may be negative when the server sends garbage).
#[derive(Debug, PartialEq, Eq, Clone, Copy, Structural)]
pub enum KickingSpeed {
    Relative(i16),
    Absolute(i16),
}

/// Kicker mode as named by the server.
#[derive(Debug, PartialEq, Eq, Clone, Copy, Structural)]
pub enum KickerMode {
    Kick,
    Chip,
}

/// Kicker part of a server packet.
#[derive(Debug, PartialEq, Eq, Clone, Copy, Structural)]
pub struct KickerInfo {
    pub charge_hint: ChargeHint,
    pub kicking_speed: Option<KickingSpeed>,
    pub mode: KickerMode,
}

/// Dribbler mode of a server packet; a tristate mode is the raw enumeration number.
#[derive(Debug, PartialEq, Eq, Clone, Copy, Structural)]
pub enum DribberMode {
    Percent(u8),
    Rpm(u16),
    TristateMode(i32),
}

/// Dribbler part of a server packet.
#[derive(Debug, PartialEq, Eq, Clone, Copy, Structural)]
pub struct DribblerInfo {
    pub dribber_mode: Option<DribberMode>,
}

/// A command for one robot as sent by the server.
#[derive(Debug, PartialEq, Eq, Clone, Copy, Structural)]
pub struct ToBasestationPacket {
    pub id: u32,
    pub team_color: TeamColor,
    pub movement: Option<Movement>,
    pub kicker_info: Option<KickerInfo>,
    pub dribbler_info: Option<DribblerInfo>,
}

/// Velocity feedback of a robot, in radio units (mm/s and rad/s * 2^10).
#[derive(Debug, PartialEq, Eq, Clone, Copy, Structural)]
pub enum VelocityFeedback {
    LocalVelocity(LocalVelocity),
    GlobalVelocity(CameraVelocity),
}

/// Firmware version reported to the server.
#[derive(Debug, PartialEq, Eq, Clone, Copy, Structural)]
pub struct FirmwareVersion {
    pub major: u32,
    pub minor: u32,
    pub patch: u32,
}

/// Feedback of one robot as sent to the server. Quantities are kept in the radio's
/// units: `battery_voltage` in V * 8 and `kicker_voltage` in V.
#[derive(Debug, PartialEq, Eq, Clone, Copy, Structural)]
pub struct FromBasestationPacket {
    pub id: u32,
    pub team_color: TeamColor,
    pub battery_voltage: u8,
    pub kicker_voltage: u8,
    pub has_ball: bool,
    pub error_code: u32,
    pub battery_current: Option<u8>,
    pub battery_capacity_used: Option<u8>,
    pub rssi_robot: i32,
    pub rssi_basestation: i32,
    pub global_position: Option<Position>,
    pub feedback_time: u32,
    pub firmware_version: Option<FirmwareVersion>,
    pub measured_rtt: u32,
    pub velocity_feedback: Option<VelocityFeedback>,
}

/// The dribbler state named by a tristate enumeration number.
pub open spec fn spec_tristate(mode: i32) -> Option<DribblerState> {
    if mode == 0 { Some(DribblerState::Off) }
    else if mode == 1 { Some(DribblerState::Half) }
    else if mode == 2 { Some(DribblerState::Full) }
    else { None }
}

/// The radio movement for a server movement.
pub open spec fn spec_movement(m: Movement) -> MovementSelection {
    match m {
        Movement::LocalVelocity(v) => MovementSelection::RobotVelocity(v),
        Movement::GlobalVelocity(v) => MovementSelection::CameraVelocity(v),
        Movement::GlobalPosition(p) => MovementSelection::Position(p),
    }
}

/// The radio charge hint for a server charge hint.
pub open spec fn spec_charge_hint(h: ChargeHint) -> KickerChargeHint {
    match h {
        ChargeHint::Charge => KickerChargeHint::Charge,
        ChargeHint::Discharge => KickerChargeHint::Discharge,
        ChargeHint::DontCare => KickerChargeHint::DontCare,
    }
}

/// The radio kick speed for a server kicking speed; none for a negative speed.
pub open spec fn spec_kick_speed(s: KickingSpeed) -> Option<KickSpeedSelection> {
    match s {
        KickingSpeed::Relative(v) => if v >= 0 { Some(KickSpeedSelection::Relative(v as u16)) } else { None },
        KickingSpeed::Absolute(v) => if v >= 0 { Some(KickSpeedSelection::Absolute(v as u16)) } else { None },
    }
}

/// The radio dribbler speed for a server dribbler mode; none for an unknown tristate.
pub open spec fn spec_dribbler_speed(m: DribberMode) -> Option<DribblerSpeedSelection> {
    match m {
        DribberMode::Percent(p) => Some(DribblerSpeedSelection::Percent(p)),
        DribberMode::Rpm(r) => Some(DribblerSpeedSelection::Rpm(r)),
        DribberMode::TristateMode(t) => match spec_tristate(t) {
            Some(s) => Some(DribblerSpeedSelection::Tristate(s)),
            None => None,
        },
    }
}

/// The radio command for a server packet: none exactly when a required part is
/// missing (movement, kicker info and its speed, dribbler info and its mode), the
/// kicking speed is negative, or the tristate dribbler mode is unknown.
pub open spec fn spec_parse_server_to_base_station(p: ToBasestationPacket) -> Option<BasestationToRobot> {
    match (p.movement, p.kicker_info, p.dribbler_info) {
        (Some(m), Some(k), Some(d)) => match (k.kicking_speed, d.dribber_mode) {
            (Some(ks), Some(dm)) => match (spec_kick_speed(ks), spec_dribbler_speed(dm)) {
                (Some(kick_speed), Some(dribbler_speed)) => Some(BasestationToRobot {
                    id: p.id as u8,
                    team: match p.team_color { TeamColor::Blue => Team::Blue, TeamColor::Yellow => Team::Yellow },
                    movement: spec_movement(m),
                    kicker_charge_hint: spec_charge_hint(k.charge_hint),
                    kick_speed,
                    kick_type: match k.mode { KickerMode::Kick => KickSelection::Kick, KickerMode::Chip => KickSelection::Chip },
                    dribbler_speed,
                    robot_position: None,
                    game_state: GameState::Normal,
                    time_sync: None,
                }),
                _ => None,
            },
            _ => None,
        },
        _ => None,
    }
}

/// The server feedback for a robot's radio feedback.
pub open spec fn spec_parse_base_station_to_server(
    packet: RobotToBasestation,
    rssi_basestation: i32,
    measured_rtt: u32,
) -> FromBasestationPacket {
    FromBasestationPacket {
        id: packet.id as u32,
        team_color: match packet.team { Team::Blue => TeamColor::Blue, Team::Yellow => TeamColor::Yellow },
        battery_voltage: packet.battery_voltage,
        kicker_voltage: packet.kicker_voltage,
        has_ball: packet.has_ball == BallState::InDribbler,
        error_code: packet.error as u32,
        battery_current: None,
        battery_capacity_used: None,
        rssi_robot: (-(packet.rssi as int)) as i32,
        rssi_basestation,
        global_position: None,
        feedback_time: 0,
        firmware_version: Some(FirmwareVersion {
            major: packet.firmware_version.major as u32,
            minor: packet.firmware_version.minor as u32,
            patch: packet.firmware_version.patch as u32,
        }),
        measured_rtt,
        velocity_feedback: match packet.velocity {
            Some(VelocitySelection::RobotVelocity(v)) => Some(VelocityFeedback::LocalVelocity(v)),
            Some(VelocitySelection::CameraVelocity(v)) => Some(VelocityFeedback::GlobalVelocity(v)),
            None => None,
        },
    }
}

/// What the conversion of a server command keeps. A command converts exactly when
/// it has a movement, kicker information with a kicking speed that is not negative,
/// and dribbler information with a mode that is a percentage, a speed or a known
/// tristate (0, 1 or 2). The converted command is for the same robot (the id's low
/// byte) and team, kicks straight exactly when the server asks to kick and chips
/// exactly when it asks to chip, keeps the charge hint, the kind and size of the
/// kicking speed, the kind and values of the movement and the dribbler setting, and
/// is for normal play without a position or time stamp.
pub proof fn lemma_server_command_conversion(p: ToBasestationPacket)
    ensures
        spec_parse_server_to_base_station(p) is Some <==> {
            &&& p.movement is Some
            &&& p.kicker_info is Some
            &&& p.kicker_info->0.kicking_speed matches Some(ks)
                && (ks matches KickingSpeed::Relative(v) ==> v >= 0)
                && (ks matches KickingSpeed::Absolute(v) ==> v >= 0)
            &&& p.dribbler_info is Some
            &&& p.dribbler_info->0.dribber_mode matches Some(dm)
                && (dm matches DribberMode::TristateMode(t) ==> 0 <= t <= 2)
        },
        spec_parse_server_to_base_station(p) matches Some(b) ==> {
            let k = p.kicker_info->0;
            &&& b.id as u32 == p.id % 256
            &&& (b.team == Team::Blue) <==> (p.team_color == TeamColor::Blue)
            &&& (b.team == Team::Yellow) <==> (p.team_color == TeamColor::Yellow)
            &&& (b.kick_type == KickSelection::Kick) <==> (k.mode == KickerMode::Kick)
            &&& (b.kick_type == KickSelection::Chip) <==> (k.mode == KickerMode::Chip)
            &&& (b.kicker_charge_hint == KickerChargeHint::Charge) <==> (k.charge_hint == ChargeHint::Charge)
            &&& (b.kicker_charge_hint == KickerChargeHint::Discharge) <==> (k.charge_hint == ChargeHint::Discharge)
            &&& (b.kicker_charge_hint == KickerChargeHint::DontCare) <==> (k.charge_hint == ChargeHint::DontCare)
            &&& (k.kicking_speed matches Some(KickingSpeed::Relative(v)) ==> b.kick_speed matches KickSpeedSelection::Relative(s) && s == v)
            &&& (k.kicking_speed matches Some(KickingSpeed::Absolute(v)) ==> b.kick_speed matches KickSpeedSelection::Absolute(s) && s == v)
            &&& (p.movement matches Some(Movement::LocalVelocity(v)) ==> b.movement == MovementSelection::RobotVelocity(v))
            &&& (p.movement matches Some(Movement::GlobalVelocity(v)) ==> b.movement == MovementSelection::CameraVelocity(v))
            &&& (p.movement matches Some(Movement::GlobalPosition(q)) ==> b.movement == MovementSelection::Position(q))
            &&& (p.dribbler_info->0.dribber_mode matches Some(DribberMode::Percent(x)) ==> b.dribbler_speed == DribblerSpeedSelection::Percent(x))
            &&& (p.dribbler_info->0.dribber_mode matches Some(DribberMode::Rpm(x)) ==> b.dribbler_speed == DribblerSpeedSelection::Rpm(x))
            &&& (p.dribbler_info->0.dribber_mode == Some(DribberMode::TristateMode(0)) ==> b.dribbler_speed == DribblerSpeedSelection::Tristate(DribblerState::Off))
            &&& (p.dribbler_info->0.dribber_mode == Some(DribberMode::TristateMode(1)) ==> b.dribbler_speed == DribblerSpeedSelection::Tristate(DribblerState::Half))
            &&& (p.dribbler_info->0.dribber_mode == Some(DribberMode::TristateMode(2)) ==> b.dribbler_speed == DribblerSpeedSelection::Tristate(DribblerState::Full))
            &&& b.robot_position is None
            &&& b.game_state == GameState::Normal
            &&& b.time_sync is None
        },
{
    let id = p.id;
    assert((id as u8) as u32 == id % 256) by (bit_vector);
}

/// What the feedback to the server keeps of a robot's radio feedback: the robot and
/// its team, the voltages, the error code and firmware version as they are, the
/// robot's signal strength as a level (the negated -dBm value), the basestation's
/// signal strength and the round trip time as measured, the kind and values of the
/// velocity, and whether the robot holds the ball: exactly when it reports the ball
/// in its dribbler.
pub proof fn lemma_feedback_conversion(packet: RobotToBasestation, rssi_basestation: i32, measured_rtt: u32)
    ensures
        ({
            let r = spec_parse_base_station_to_server(packet, rssi_basestation, measured_rtt);
            &&& r.has_ball <==> packet.has_ball == BallState::InDribbler
            &&& !r.has_ball <==> packet.has_ball == BallState::NotInDribbler
            &&& r.id == packet.id
            &&& (r.team_color == TeamColor::Blue) <==> (packet.team == Team::Blue)
            &&& (r.team_color == TeamColor::Yellow) <==> (packet.team == Team::Yellow)
            &&& r.battery_voltage == packet.battery_voltage
            &&& r.kicker_voltage == packet.kicker_voltage
            &&& r.error_code == packet.error
            &&& r.rssi_robot == -(packet.rssi as int)
            &&& r.rssi_basestation == rssi_basestation
            &&& r.measured_rtt == measured_rtt
            &&& r.feedback_time == 0
            &&& r.firmware_version matches Some(f) && f.major == packet.firmware_version.major
                && f.minor == packet.firmware_version.minor && f.patch == packet.firmware_version.patch
            &&& (packet.velocity matches Some(VelocitySelection::RobotVelocity(v)) ==> r.velocity_feedback == Some(VelocityFeedback::LocalVelocity(v)))
            &&& (packet.velocity matches Some(VelocitySelection::CameraVelocity(v)) ==> r.velocity_feedback == Some(VelocityFeedback::GlobalVelocity(v)))
            &&& packet.velocity is None ==> r.velocity_feedback is None
        }),
{
}

fn convert_tristate(mode: i32) -> (r: Option<DribblerState>)
    ensures r == spec_tristate(mode),
{
    match mode {
        0 => Some(DribblerState::Off),
        1 => Some(DribblerState::Half),
        2 => Some(DribblerState::Full),
        _ => None,
    }
}

/// Converts a server command into the radio command for the robot.
pub fn parse_server_to_base_station(packet: ToBasestationPacket) -> (r: Option<BasestationToRobot>)
    ensures r == spec_parse_server_to_base_station(packet),
{
    let id = packet.id as u8;
    let team = match packet.team_color {
        TeamColor::Blue => Team::Blue,
        TeamColor::Yellow => Team::Yellow,
    };

    let movement = match packet.movement {
        Some(Movement::LocalVelocity(v)) => MovementSelection::RobotVelocity(v),
        Some(Movement::GlobalVelocity(v)) => MovementSelection::CameraVelocity(v),
        Some(Movement::GlobalPosition(p)) => MovementSelection::Position(p),
        None => return None,
    };

    // Kicker info is a required field
    let kicker_info = match packet.kicker_info {
        Some(k) => k,
        None => return None,
    };

    let kicker_charge_hint = match kicker_info.charge_hint {
        ChargeHint::Charge => KickerChargeHint::Charge,
        ChargeHint::Discharge => KickerChargeHint::Discharge,
        ChargeHint::DontCare => KickerChargeHint::DontCare,
    };

    // Kicking speed is a required field and must not be negative
    let kick_speed = match kicker_info.kicking_speed {
        Some(KickingSpeed::Relative(v)) => {
            if v < 0 {
                return None;
            }
            KickSpeedSelection::Relative(v as u16)
        },
        Some(KickingSpeed::Absolute(v)) => {
            if v < 0 {
                return None;
            }
            KickSpeedSelection::Absolute(v as u16)
        },
        None => return None,
    };

    let kick_type = match kicker_info.mode {
        KickerMode::Kick => KickSelection::Kick,
        KickerMode::Chip => KickSelection::Chip,
    };

    // Dribbler info and its mode are required fields
    let dribbler_info = match packet.dribbler_info {
        Some(d) => d,
        None => return None,
    };
    let dribbler_speed = match dribbler_info.dribber_mode {
        Some(DribberMode::Percent(per)) => DribblerSpeedSelection::Percent(per),
        Some(DribberMode::Rpm(rpm)) => DribblerSpeedSelection::Rpm(rpm),
        Some(DribberMode::TristateMode(mode)) => match convert_tristate(mode) {
            Some(state) => DribblerSpeedSelection::Tristate(state),
            None => return None,
        },
        None => return None,
    };

    Some(BasestationToRobot {
        id,
        team,
        movement,
        kicker_charge_hint,
        kick_speed,
        kick_type,
        dribbler_speed,
        robot_position: None,
        game_state: GameState::Normal,
        time_sync: None,
    })
}

/// Converts a robot's radio feedback into the feedback sent to the server.
pub fn parse_base_station_to_server(
    packet: RobotToBasestation,
    rssi_basestation: i32,
    measured_rtt: u32,
) -> (r: FromBasestationPacket)
    ensures r == spec_parse_base_station_to_server(packet, rssi_basestation, measured_rtt),
{
    let id = packet.id as u32;
    let team_color = match packet.team {
        Team::Blue => TeamColor::Blue,
        Team::Yellow => TeamColor::Yellow,
    };
    let has_ball = match packet.has_ball {
        BallState::InDribbler => true,
        BallState::NotInDribbler => false,
    };
    let error_code = packet.error as u32;
    let rssi_robot = -(packet.rssi as i32);
    let firmware_version = Some(FirmwareVersion {
        major: packet.firmware_version.major as u32,
        minor: packet.firmware_version.minor as u32,
        patch: packet.firmware_version.patch as u32,
    });
    let velocity_feedback = match packet.velocity {
        Some(VelocitySelection::RobotVelocity(v)) => Some(VelocityFeedback::LocalVelocity(v)),
        Some(VelocitySelection::CameraVelocity(v)) => Some(VelocityFeedback::GlobalVelocity(v)),
        None => None,
    };

    FromBasestationPacket {
        id,
        team_color,
        battery_voltage: packet.battery_voltage,
        kicker_voltage: packet.kicker_voltage,
        has_ball,
        error_code,
        battery_current: None,
        battery_capacity_used: None,
        rssi_robot,
        rssi_basestation,
        global_position: None,
        feedback_time: 0,
        firmware_version,
        measured_rtt,
        velocity_feedback,
    }
}

} // verus!
