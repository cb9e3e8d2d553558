use luhbots::converter::{
    parse_base_station_to_server, parse_server_to_base_station, ChargeHint, DribberMode, DribblerInfo, FirmwareVersion,
    KickerInfo, KickerMode, KickingSpeed, Movement, TeamColor, ToBasestationPacket, VelocityFeedback,
};
use luhbots::definitions::{
    robot_blue_sync_word, robot_yellow_sync_word, version, BallState, BasestationToRobot, DribblerSpeedSelection,
    DribblerState, GameState, KickSelection, KickSpeedSelection, KickerChargeHint, LocalVelocity, MovementSelection,
    Position, RobotToBasestation, SemVersion, Team, VelocitySelection, BASESTATION_SYNC_WORD,
};
use luhbots::robot_state::RobotState;

fn server_packet(id: u32) -> ToBasestationPacket {
    ToBasestationPacket {
        id,
        team_color: TeamColor::Yellow,
        movement: Some(Movement::LocalVelocity(LocalVelocity { forward: 500, left: -20, counterclockwise: 1024 })),
        kicker_info: Some(KickerInfo {
            charge_hint: ChargeHint::Charge,
            kicking_speed: Some(KickingSpeed::Absolute(3000)),
            mode: KickerMode::Chip,
        }),
        dribbler_info: Some(DribblerInfo { dribber_mode: Some(DribberMode::TristateMode(2)) }),
    }
}

fn feedback(id: u8) -> RobotToBasestation {
    RobotToBasestation {
        id,
        team: Team::Blue,
        battery_voltage: 130,
        kicker_voltage: 200,
        has_ball: BallState::InDribbler,
        error: 3,
        battery_current: Some(9),
        battery_capacity_used: None,
        rssi: 70,
        velocity: Some(VelocitySelection::RobotVelocity(LocalVelocity { forward: 1, left: 2, counterclockwise: 3 })),
        position: None,
        firmware_version: SemVersion { major: 1, minor: 2, patch: 3 },
    }
}

#[test]
fn server_commands_become_radio_commands() {
    let radio = parse_server_to_base_station(server_packet(4)).unwrap();
    assert_eq!(
        radio,
        BasestationToRobot {
            id: 4,
            team: Team::Yellow,
            movement: MovementSelection::RobotVelocity(LocalVelocity { forward: 500, left: -20, counterclockwise: 1024 }),
            kicker_charge_hint: KickerChargeHint::Charge,
            kick_speed: KickSpeedSelection::Absolute(3000),
            kick_type: KickSelection::Chip,
            dribbler_speed: DribblerSpeedSelection::Tristate(DribblerState::Full),
            robot_position: None,
            game_state: GameState::Normal,
            time_sync: None,
        }
    );
    let mut p = server_packet(1);
    p.movement = Some(Movement::GlobalPosition(Position { x: 1, y: 2, theta: 3 }));
    p.dribbler_info = Some(DribblerInfo { dribber_mode: Some(DribberMode::Rpm(900)) });
    let radio = parse_server_to_base_station(p).unwrap();
    assert_eq!(radio.movement, MovementSelection::Position(Position { x: 1, y: 2, theta: 3 }));
    assert_eq!(radio.dribbler_speed, DribblerSpeedSelection::Rpm(900));
}

#[test]
fn incomplete_server_commands_are_dropped() {
    let mut p = server_packet(1);
    p.movement = None;
    assert_eq!(parse_server_to_base_station(p), None);
    let mut p = server_packet(1);
    p.kicker_info = None;
    assert_eq!(parse_server_to_base_station(p), None);
    let mut p = server_packet(1);
    p.kicker_info = Some(KickerInfo { charge_hint: ChargeHint::DontCare, kicking_speed: Some(KickingSpeed::Relative(-1)), mode: KickerMode::Kick });
    assert_eq!(parse_server_to_base_station(p), None);
    let mut p = server_packet(1);
    p.dribbler_info = Some(DribblerInfo { dribber_mode: Some(DribberMode::TristateMode(3)) });
    assert_eq!(parse_server_to_base_station(p), None);
    let mut p = server_packet(1);
    p.dribbler_info = Some(DribblerInfo { dribber_mode: None });
    assert_eq!(parse_server_to_base_station(p), None);
}

#[test]
fn robot_feedback_becomes_server_feedback() {
    let f = parse_base_station_to_server(feedback(7), -40, 1500);
    assert_eq!(f.id, 7);
    assert_eq!(f.team_color, TeamColor::Blue);
    assert_eq!((f.battery_voltage, f.kicker_voltage), (130, 200));
    assert!(f.has_ball);
    assert_eq!(f.error_code, 3);
    assert_eq!((f.battery_current, f.battery_capacity_used), (None, None));
    assert_eq!((f.rssi_robot, f.rssi_basestation), (-70, -40));
    assert_eq!(f.firmware_version, Some(FirmwareVersion { major: 1, minor: 2, patch: 3 }));
    assert_eq!(f.measured_rtt, 1500);
    assert_eq!(f.feedback_time, 0);
    assert_eq!(f.velocity_feedback, Some(VelocityFeedback::LocalVelocity(LocalVelocity { forward: 1, left: 2, counterclockwise: 3 })));
}

#[test]
fn commands_are_buffered_per_robot_and_sent_once() {
    let mut state = RobotState::default();
    let mut late = server_packet(3);
    late.team_color = TeamColor::Blue;
    state.update_from_network(vec![server_packet(3), server_packet(0), server_packet(16), late]);
    let pending = state.take_pending_packets();
    assert_eq!(pending.len(), 2);
    assert_eq!(pending[0].id, 0);
    // The later packet for robot 3 replaced the earlier one.
    assert_eq!((pending[1].id, pending[1].team), (3, Team::Blue));
    assert!(state.take_pending_packets().is_empty());
}

#[test]
fn feedback_is_collected_once() {
    let mut state = RobotState::default();
    assert!(state.create_network_packet().is_none());
    assert!(state.store_feedback(feedback(5), -30, 100));
    assert!(state.store_feedback(feedback(2), -31, 101));
    assert!(!state.store_feedback(feedback(16), -32, 102));
    let w = state.create_network_packet().unwrap();
    // Robot id order; the second packet of the wrapper sequence.
    assert_eq!(w.packets.iter().map(|p| p.id).collect::<Vec<_>>(), vec![2, 5]);
    assert_eq!(w.seq_id, 2);
    assert_eq!(w.error_code, 0);
    assert_eq!(w.firmware_version, Some(FirmwareVersion { major: 0, minor: 0, patch: 0 }));
    assert!(state.create_network_packet().is_none());
}

#[test]
fn sync_words() {
    assert_eq!(robot_blue_sync_word(0), 0xab60_615e);
    assert_eq!(robot_blue_sync_word(15), 0xfafe_4934);
    assert_eq!(robot_yellow_sync_word(7), 0xc692_9a96);
    assert_ne!(BASESTATION_SYNC_WORD, robot_blue_sync_word(0));
    assert_eq!(version(), SemVersion { major: 0, minor: 3, patch: 0 });
}

#[test]
fn sync_words_are_distinct() {
    let mut words = std::collections::HashSet::new();
    for id in 0..16u8 {
        assert!(words.insert(robot_blue_sync_word(id)));
        assert!(words.insert(robot_yellow_sync_word(id)));
    }
    assert!(words.insert(BASESTATION_SYNC_WORD));
    assert!(words.insert(luhbots::definitions::BROADCAST_SYNC_WORD));
}
