use demo_analysis::algorithm::{
    copy_detections, declaration_covers, kinds_contain, retract, AngleQuery, CheatAlgorithm,
    Detection, DetectionData, TickReport,
};
use demo_analysis::algorithms::aim_snap::{is_snap, AimSnap};
use demo_analysis::algorithms::angle_repeat::{judge_ratio, AngleRepeat};
use demo_analysis::algorithms::oob_pitch::OOBPitch;
use demo_analysis::algorithms::viewangles_180degrees::ViewAngles180Degrees;
use demo_analysis::algorithms::viewangles_to_csv::{Record, ViewAnglesToCSV};
use demo_analysis::base::records::{GameEvent, Message, MessageType, Prop, PropValue, TempEntity};
use demo_analysis::base::state::{CheatAnalyserState, Player, PlayerState, UserInfo};
use demo_analysis::parameters::Parameter;
use demo_analysis::util::helpers::{Vector, ViewAngles};
use tf_demo_parser::demo::sendprop::SendPropIdentifier;

const DEG: i64 = 1_000_000;
const ALICE: u64 = 76561197960287930;
const BOB: u64 = 76561197960265733;

fn followed(entity: u32, user_id: u16, steam_id: &str, yaw: i64, pitch: i64) -> Player {
    let mut p = Player::new(entity);
    p.in_pvs = true;
    p.view_angle = yaw;
    p.pitch_angle = pitch;
    p.info = Some(UserInfo {
        entity_id: entity,
        name: format!("player {}", entity),
        user_id,
        steam_id: steam_id.to_string(),
    });
    p
}

fn alice(yaw: i64, pitch: i64) -> Player {
    followed(1, 11, "[U:1:22202]", yaw, pitch)
}

fn bob(yaw: i64, pitch: i64) -> Player {
    followed(2, 12, "[U:1:5]", yaw, pitch)
}

fn state(tick: u32, players: Vec<Player>) -> CheatAnalyserState {
    let mut s = CheatAnalyserState::new();
    s.players = players;
    s.tick = tick;
    s
}

fn tick<A: CheatAlgorithm>(detector: &mut A, s: &CheatAnalyserState) -> TickReport {
    detector.on_tick(s).unwrap()
}

fn angles(yaw: i64, pitch: i64) -> ViewAngles {
    ViewAngles { yaw, pitch }
}

/// The great-circle distance between two orientations.
fn great_circle(a: ViewAngles, b: ViewAngles) -> i64 {
    fn unit(v: ViewAngles) -> (f64, f64, f64) {
        let yaw = (v.yaw as f64 / 1e6).to_radians();
        let pitch = (v.pitch as f64 / 1e6).to_radians();
        (pitch.cos() * yaw.sin(), pitch.sin(), pitch.cos() * yaw.cos())
    }
    let (p, q) = (unit(a), unit(b));
    let dot = (p.0 * q.0 + p.1 * q.1 + p.2 * q.2).clamp(-1.0, 1.0);
    (dot.acos().to_degrees() * 1e6).round() as i64
}

fn measure(query: &AngleQuery) -> Vec<i64> {
    query.pairs.iter().map(|(a, b)| great_circle(*a, *b)).collect()
}

fn pitch_finding(player: u64, tick: u32, pitch: i64) -> Detection {
    Detection {
        tick,
        algorithm: "nocrex/oob_pitch".to_string(),
        player,
        data: DetectionData::Pitch(pitch),
    }
}

#[test]
fn great_circle_distance_is_a_metric_on_samples() {
    let samples = [
        angles(0, 0),
        angles(350 * DEG, 10 * DEG),
        angles(10 * DEG, -10 * DEG),
        angles(180 * DEG, 0),
        angles(90 * DEG, 89 * DEG),
        angles(-45 * DEG, -60 * DEG),
    ];
    for a in samples {
        assert!(great_circle(a, a) <= 1);
        for b in samples {
            let d = great_circle(a, b);
            assert!((d - great_circle(b, a)).abs() <= 1);
            assert!((0..=180 * DEG).contains(&d));
        }
    }
    assert_eq!(great_circle(angles(350 * DEG, 0), angles(10 * DEG, 0)), 20 * DEG);
    assert_eq!(great_circle(angles(0, -90 * DEG), angles(0, 90 * DEG)), 180 * DEG);
}

#[test]
fn names_and_defaults() {
    assert_eq!(AimSnap::new().algorithm_name(), "nocrex/aimsnap");
    assert_eq!(AngleRepeat::new().algorithm_name(), "nocrex/angle_repeat");
    assert_eq!(OOBPitch::new().algorithm_name(), "nocrex/oob_pitch");
    assert_eq!(ViewAngles180Degrees::new().algorithm_name(), "viewangles_180degrees");
    assert!(AimSnap::new().default());
    assert!(AngleRepeat::new().default());
    assert!(OOBPitch::new().default());
    assert!(ViewAngles180Degrees::new().default());
    assert!(AimSnap::new().init().is_ok());
    assert!(AngleRepeat::new().init().is_ok());
    assert!(OOBPitch::new().init().is_ok());
    assert!(ViewAngles180Degrees::new().init().is_ok());
}

#[test]
fn declared_interest() {
    let guarded = Ok(vec![MessageType::GameEvent, MessageType::TempEntities]);
    assert_eq!(AimSnap::new().handled_messages(), guarded);
    assert_eq!(AngleRepeat::new().handled_messages(), guarded);
    assert_eq!(OOBPitch::new().handled_messages(), Err(false));
    assert_eq!(ViewAngles180Degrees::new().handled_messages(), Err(false));
    let snap = AimSnap::new();
    assert!(snap.does_handle(MessageType::GameEvent));
    assert!(snap.does_handle(MessageType::TempEntities));
    assert!(!snap.does_handle(MessageType::NetTick));
    assert!(!snap.does_handle(MessageType::PacketEntities));
    assert!(!OOBPitch::new().does_handle(MessageType::GameEvent));
    assert!(declaration_covers(&Err(true), MessageType::VoiceData));
    assert!(!declaration_covers(&Err(false), MessageType::VoiceData));
    assert!(declaration_covers(&Ok(vec![MessageType::VoiceData]), MessageType::VoiceData));
    assert!(!declaration_covers(&Ok(vec![MessageType::VoiceData]), MessageType::NetTick));
    assert!(!declaration_covers(&Ok(Vec::new()), MessageType::NetTick));
    assert!(kinds_contain(&vec![MessageType::File, MessageType::Menu], MessageType::Menu));
    assert!(!kinds_contain(&vec![MessageType::File, MessageType::Menu], MessageType::Print));
}

#[test]
fn default_parameters() {
    assert_eq!(
        AimSnap::new().params(),
        vec![
            ("noise_min".to_string(), Parameter::Float(28_000)),
            ("noise_max".to_string(), Parameter::Float(990_000)),
            ("snap_threshold".to_string(), Parameter::Float(10 * DEG)),
        ]
    );
    assert_eq!(
        AngleRepeat::new().params(),
        vec![
            ("min_angle_diff_ratio".to_string(), Parameter::Float(3 * DEG)),
            ("min_first_second_angle_delta".to_string(), Parameter::Float(0)),
            ("max_first_third_angle_delta".to_string(), Parameter::Float(28_000)),
        ]
    );
    assert_eq!(
        OOBPitch::new().params(),
        vec![
            ("min_pitch".to_string(), Parameter::Float(-89_999_000)),
            ("max_pitch".to_string(), Parameter::Float(89_999_000)),
        ]
    );
    assert_eq!(ViewAngles180Degrees::new().params(), Vec::new());
}

#[test]
fn parameters_are_set_by_name_and_kind() {
    let mut snap = AimSnap::new();
    snap.set_param("noise_max", Parameter::Float(500_000));
    snap.set_param("snap_threshold", Parameter::Int(3));
    snap.set_param("noise_min", Parameter::Bool(true));
    snap.set_param("no_such_parameter", Parameter::Float(1));
    snap.set_param("min_pitch", Parameter::Float(1));
    assert_eq!(
        snap.params(),
        vec![
            ("noise_min".to_string(), Parameter::Float(28_000)),
            ("noise_max".to_string(), Parameter::Float(500_000)),
            ("snap_threshold".to_string(), Parameter::Float(10 * DEG)),
        ]
    );
    let mut pitch = OOBPitch::new();
    pitch.set_param("min_pitch", Parameter::Float(-45 * DEG));
    pitch.set_param("max_pitch", Parameter::Float(45 * DEG));
    assert_eq!(
        pitch.params(),
        vec![
            ("min_pitch".to_string(), Parameter::Float(-45 * DEG)),
            ("max_pitch".to_string(), Parameter::Float(45 * DEG)),
        ]
    );
    let mut repeat = AngleRepeat::new();
    repeat.set_param("min_angle_diff_ratio", Parameter::Float(20 * DEG));
    repeat.set_param("min_first_second_angle_delta", Parameter::Float(5 * DEG));
    repeat.set_param("max_first_third_angle_delta", Parameter::Float(2 * DEG));
    assert_eq!(
        repeat.params(),
        vec![
            ("min_angle_diff_ratio".to_string(), Parameter::Float(20 * DEG)),
            ("min_first_second_angle_delta".to_string(), Parameter::Float(5 * DEG)),
            ("max_first_third_angle_delta".to_string(), Parameter::Float(2 * DEG)),
        ]
    );
    let mut turn = ViewAngles180Degrees::new();
    turn.set_param("anything", Parameter::Float(1));
    assert_eq!(turn.params(), Vec::new());
}

#[test]
fn a_run_of_out_of_bounds_pitch_is_flagged_once() {
    let mut detector = OOBPitch::new();
    let pitches = [0, 95 * DEG, 95 * DEG, 96 * DEG, 0];
    let mut found = Vec::new();
    for (i, pitch) in pitches.iter().enumerate() {
        let report = tick(&mut detector, &state(i as u32 + 1, vec![alice(0, *pitch)]));
        assert!(report.queries.is_empty());
        found.extend(report.detections);
    }
    assert_eq!(found, vec![pitch_finding(ALICE, 2, 95 * DEG)]);
    assert_eq!(detector.finish().unwrap(), Vec::new());
}

#[test]
fn each_run_of_out_of_bounds_pitch_is_flagged() {
    let mut detector = OOBPitch::new();
    let pitches = [-95 * DEG, -95 * DEG, 0, 95 * DEG, 0, 95 * DEG];
    let mut found = Vec::new();
    for (i, pitch) in pitches.iter().enumerate() {
        found.extend(tick(&mut detector, &state(i as u32, vec![alice(0, *pitch)])).detections);
    }
    assert_eq!(
        found,
        vec![
            pitch_finding(ALICE, 0, -95 * DEG),
            pitch_finding(ALICE, 3, 95 * DEG),
            pitch_finding(ALICE, 5, 95 * DEG),
        ]
    );
}

#[test]
fn the_pitch_bounds_are_inclusive() {
    let mut detector = OOBPitch::new();
    for (i, pitch) in [89_999_000, -89_999_000, 0, 89 * DEG].iter().enumerate() {
        let report = tick(&mut detector, &state(i as u32, vec![alice(0, *pitch)]));
        assert_eq!(report.detections, Vec::new());
    }
    let report = tick(&mut detector, &state(9, vec![alice(0, 89_999_001), bob(0, -89_999_001)]));
    assert_eq!(
        report.detections,
        vec![pitch_finding(ALICE, 9, 89_999_001), pitch_finding(BOB, 9, -89_999_001)]
    );
}

#[test]
fn a_player_out_of_sight_ends_its_run() {
    let mut detector = OOBPitch::new();
    assert_eq!(tick(&mut detector, &state(1, vec![alice(0, 95 * DEG)])).detections.len(), 1);
    let mut hidden = alice(0, 95 * DEG);
    hidden.in_pvs = false;
    assert_eq!(tick(&mut detector, &state(2, vec![hidden])).detections.len(), 0);
    assert_eq!(tick(&mut detector, &state(3, vec![alice(0, 95 * DEG)])).detections.len(), 1);
}

#[test]
fn players_that_are_not_followed_are_never_flagged() {
    let mut dead = alice(0, 95 * DEG);
    dead.state = PlayerState::Death;
    let mut hidden = alice(0, 95 * DEG);
    hidden.in_pvs = false;
    let mut anonymous = alice(0, 95 * DEG);
    anonymous.info = None;
    let placeholder = followed(5, 15, "BOT", 0, 95 * DEG);
    let undecodable = followed(6, 16, "not an identity", 0, 95 * DEG);
    let s = state(1, vec![dead, hidden, anonymous, placeholder, undecodable]);
    let mut pitch = OOBPitch::new();
    assert_eq!(tick(&mut pitch, &s).detections, Vec::new());
    let mut turn = ViewAngles180Degrees::new();
    tick(&mut turn, &s);
    let mut later = state(2, Vec::new());
    later.players = s.players.iter().map(|p| p.duplicate()).collect();
    for p in later.players.iter_mut() {
        p.view_angle = 180 * DEG;
    }
    assert_eq!(tick(&mut turn, &later).detections, Vec::new());
}

#[test]
fn the_snap_pattern_is_one_snap_among_noise() {
    let (lo, hi, snap) = (1_000, 500_000, 10 * DEG);
    assert!(is_snap(&vec![10_000, 10_000, 15 * DEG, 10_000], lo, hi, snap));
    assert!(is_snap(&vec![10_000, 15 * DEG, 10_000, 10_000], lo, hi, snap));
    // Two large turns.
    assert!(!is_snap(&vec![10_000, 15 * DEG, 15 * DEG, 10_000], lo, hi, snap));
    // The snap stands first or last.
    assert!(!is_snap(&vec![15 * DEG, 10_000, 10_000, 10_000], lo, hi, snap));
    assert!(!is_snap(&vec![10_000, 10_000, 10_000, 15 * DEG], lo, hi, snap));
    // No snap at all.
    assert!(!is_snap(&vec![10_000, 10_000, 10_000, 10_000], lo, hi, snap));
    // The odd one out is no snap.
    assert!(!is_snap(&vec![10_000, 10_000, 5 * DEG, 10_000], lo, hi, snap));
    assert!(!is_snap(&vec![10_000, 10_000, 0, 10_000], lo, hi, snap));
    // Nothing to judge.
    assert!(!is_snap(&Vec::new(), lo, hi, snap));
    assert!(!is_snap(&vec![10_000], lo, hi, snap));
    assert!(is_snap(&vec![10_000, 15 * DEG, 10_000], lo, hi, snap));
}

#[test]
fn the_noise_range_is_half_open_and_the_snap_threshold_strict() {
    let (lo, hi, snap) = (1_000, 500_000, 10 * DEG);
    assert!(is_snap(&vec![1_000, 499_999, 10 * DEG + 1, 1_000], lo, hi, snap));
    assert!(!is_snap(&vec![999, 499_999, 10 * DEG + 1, 1_000], lo, hi, snap));
    assert!(!is_snap(&vec![1_000, 500_000, 10 * DEG + 1, 1_000], lo, hi, snap));
    assert!(!is_snap(&vec![1_000, 499_999, 10 * DEG, 1_000], lo, hi, snap));
}

fn snap_detector() -> AimSnap {
    let mut detector = AimSnap::new();
    detector.set_param("noise_min", Parameter::Float(1_000));
    detector.set_param("noise_max", Parameter::Float(500_000));
    detector.set_param("snap_threshold", Parameter::Float(10 * DEG));
    detector
}

fn run_window(detector: &mut AimSnap, first_tick: u32, yaws: [i64; 5]) -> Vec<AngleQuery> {
    let mut asked = Vec::new();
    for (i, yaw) in yaws.iter().enumerate() {
        let report = tick(detector, &state(first_tick + i as u32, vec![alice(*yaw, 0)]));
        assert_eq!(report.detections, Vec::new());
        asked = report.queries;
    }
    asked
}

#[test]
fn a_snap_among_noise_is_flagged() {
    let mut detector = snap_detector();
    // Turns of 0.01, 0.01, 15 and 0.01 degrees.
    let yaws = [0, 10_000, 20_000, 15 * DEG + 20_000, 15 * DEG + 30_000];
    let asked = run_window(&mut detector, 100, yaws);
    assert_eq!(
        asked,
        vec![AngleQuery {
            player: ALICE,
            tick: 104,
            pairs: vec![
                (angles(yaws[0], 0), angles(yaws[1], 0)),
                (angles(yaws[1], 0), angles(yaws[2], 0)),
                (angles(yaws[2], 0), angles(yaws[3], 0)),
                (angles(yaws[3], 0), angles(yaws[4], 0)),
            ],
        }]
    );
    let deltas = measure(&asked[0]);
    assert_eq!(deltas, vec![10_000, 10_000, 15 * DEG, 10_000]);
    // The finding is buffered until the end.
    assert_eq!(detector.on_angles(&asked[0], &deltas).unwrap(), Vec::new());
    assert_eq!(
        detector.finish().unwrap(),
        vec![Detection {
            tick: 102,
            algorithm: "nocrex/aimsnap".to_string(),
            player: ALICE,
            data: DetectionData::Deltas(vec![10_000, 10_000, 15 * DEG, 10_000]),
        }]
    );
    // Finishing hands the buffer out and keeps it.
    assert_eq!(detector.finish().unwrap().len(), 1);
}

#[test]
fn two_large_turns_are_not_flagged() {
    let mut detector = snap_detector();
    // Turns of 0.01, 15, 15 and 0.01 degrees.
    let yaws = [0, 10_000, 15 * DEG + 10_000, 30 * DEG + 10_000, 30 * DEG + 20_000];
    let asked = run_window(&mut detector, 100, yaws);
    assert_eq!(asked.len(), 1);
    let deltas = measure(&asked[0]);
    assert_eq!(deltas, vec![10_000, 15 * DEG, 15 * DEG, 10_000]);
    detector.on_angles(&asked[0], &deltas).unwrap();
    assert_eq!(detector.finish().unwrap(), Vec::new());
}

#[test]
fn a_window_needs_five_samples_in_a_row() {
    let mut detector = snap_detector();
    for t in 100..104 {
        assert_eq!(tick(&mut detector, &state(t, vec![alice(0, 0)])).queries, Vec::new());
    }
    assert_eq!(tick(&mut detector, &state(104, vec![alice(0, 0)])).queries.len(), 1);
    assert_eq!(tick(&mut detector, &state(105, vec![alice(0, 0)])).queries.len(), 1);
    // A boundary without the player breaks the row.
    assert_eq!(tick(&mut detector, &state(106, Vec::new())).queries, Vec::new());
    for t in 107..111 {
        assert_eq!(tick(&mut detector, &state(t, vec![alice(0, 0)])).queries, Vec::new());
    }
    assert_eq!(tick(&mut detector, &state(111, vec![alice(0, 0)])).queries.len(), 1);
}

#[test]
fn each_player_has_its_own_window() {
    let mut detector = snap_detector();
    for t in 100..103 {
        tick(&mut detector, &state(t, vec![alice(0, 0)]));
    }
    for t in 103..105 {
        tick(&mut detector, &state(t, vec![bob(DEG, 0), alice(0, 0)]));
    }
    let asked = tick(&mut detector, &state(105, vec![bob(DEG, 0), alice(0, 0)])).queries;
    assert_eq!(asked.len(), 1);
    assert_eq!(asked[0].player, ALICE);
    tick(&mut detector, &state(106, vec![bob(DEG, 0), alice(0, 0)]));
    let asked = tick(&mut detector, &state(107, vec![bob(DEG, 0), alice(0, 0)])).queries;
    let players: Vec<u64> = asked.iter().map(|q| q.player).collect();
    assert_eq!(players, vec![BOB, ALICE]);
}

#[test]
fn players_are_left_alone_for_sixty_ticks_after_a_spawn() {
    let mut detector = snap_detector();
    let s = state(0, vec![alice(0, 0)]);
    detector
        .on_message(&Message::GameEvent(GameEvent::PlayerSpawn { user_id: 11 }), &s, 100)
        .unwrap();
    for t in 100..160 {
        assert_eq!(tick(&mut detector, &state(t, vec![alice(0, 0)])).queries, Vec::new());
    }
    // The first samples are taken from tick 160 on.
    for t in 160..164 {
        assert_eq!(tick(&mut detector, &state(t, vec![alice(0, 0)])).queries, Vec::new());
    }
    assert_eq!(tick(&mut detector, &state(164, vec![alice(0, 0)])).queries.len(), 1);
}

#[test]
fn the_first_sixty_ticks_of_a_recording_are_left_alone() {
    let mut detector = snap_detector();
    for t in 0..64 {
        assert_eq!(tick(&mut detector, &state(t, vec![alice(0, 0)])).queries, Vec::new());
    }
    assert_eq!(tick(&mut detector, &state(64, vec![alice(0, 0)])).queries.len(), 1);
}

fn shot_by(entity: i64) -> Message {
    Message::TempEntities(vec![TempEntity {
        class_id: 152,
        props: vec![Prop {
            index: 0,
            identifier: SendPropIdentifier::new("DT_TEFireBullets", "m_iPlayer").into(),
            value: PropValue::Integer(entity),
        }],
    }])
}

#[test]
fn a_snap_right_after_a_shot_is_not_flagged() {
    let s = state(0, vec![alice(0, 0), bob(0, 0)]);
    let query = AngleQuery { player: ALICE, tick: 104, pairs: Vec::new() };
    let deltas = vec![10_000, 10_000, 15 * DEG, 10_000];
    for (shot_tick, flagged) in [(104, 0), (100, 0), (99, 1)] {
        let mut detector = snap_detector();
        detector.on_message(&shot_by(1), &s, shot_tick).unwrap();
        detector.on_angles(&query, &deltas).unwrap();
        assert_eq!(detector.finish().unwrap().len(), flagged, "shot at {}", shot_tick);
    }
    // The shot of another player does not count.
    let mut detector = snap_detector();
    detector.on_message(&shot_by(2), &s, 104).unwrap();
    detector.on_angles(&query, &deltas).unwrap();
    assert_eq!(detector.finish().unwrap().len(), 1);
}

#[test]
fn a_finding_is_dated_two_ticks_back() {
    let deltas = vec![10_000, 10_000, 15 * DEG, 10_000];
    for (tick, dated) in [(104, 102), (7, 5), (6, 4)] {
        let mut detector = snap_detector();
        detector.on_angles(&AngleQuery { player: BOB, tick, pairs: Vec::new() }, &deltas).unwrap();
        let found = detector.finish().unwrap();
        assert_eq!(found.len(), 1);
        assert_eq!((found[0].tick, found[0].player), (dated, BOB));
    }
}

fn flagged_at_104(detector: &mut AimSnap) {
    let query = AngleQuery { player: ALICE, tick: 104, pairs: Vec::new() };
    detector.on_angles(&query, &vec![10_000, 10_000, 15 * DEG, 10_000]).unwrap();
    assert_eq!(detector.finish().unwrap().len(), 1);
}

#[test]
fn a_teleport_within_sixty_ticks_withdraws_the_finding() {
    // The finding is dated to tick 102.
    for teleport_tick in [104, 110, 161, 162] {
        let mut detector = snap_detector();
        flagged_at_104(&mut detector);
        let s = state(teleport_tick, vec![bob(0, 0), alice(0, 0)]);
        detector
            .on_message(&Message::GameEvent(GameEvent::PlayerTeleported { user_id: 11 }), &s, teleport_tick)
            .unwrap();
        tick(&mut detector, &s);
        assert_eq!(detector.finish().unwrap(), Vec::new(), "teleport at {}", teleport_tick);
    }
}

#[test]
fn a_later_teleport_leaves_the_finding() {
    let mut detector = snap_detector();
    flagged_at_104(&mut detector);
    let s = state(163, vec![alice(0, 0)]);
    detector
        .on_message(&Message::GameEvent(GameEvent::PlayerTeleported { user_id: 11 }), &s, 163)
        .unwrap();
    tick(&mut detector, &s);
    assert_eq!(detector.finish().unwrap().len(), 1);
}

#[test]
fn the_teleport_of_another_player_leaves_the_finding() {
    let mut detector = snap_detector();
    flagged_at_104(&mut detector);
    let s = state(110, vec![alice(0, 0), bob(0, 0)]);
    detector
        .on_message(&Message::GameEvent(GameEvent::PlayerTeleported { user_id: 12 }), &s, 110)
        .unwrap();
    tick(&mut detector, &s);
    assert_eq!(detector.finish().unwrap().len(), 1);
}

#[test]
fn a_teleport_is_only_acted_on_when_the_player_is_followed() {
    let mut detector = snap_detector();
    flagged_at_104(&mut detector);
    let mut hidden = alice(0, 0);
    hidden.in_pvs = false;
    let s = state(110, vec![hidden]);
    detector
        .on_message(&Message::GameEvent(GameEvent::PlayerTeleported { user_id: 11 }), &s, 110)
        .unwrap();
    tick(&mut detector, &s);
    // One tick later the teleport is no longer of this very tick.
    tick(&mut detector, &state(111, vec![alice(0, 0)]));
    assert_eq!(detector.finish().unwrap().len(), 1);
}

#[test]
fn a_jump_in_position_withdraws_the_finding_too() {
    let mut detector = snap_detector();
    tick(&mut detector, &state(109, vec![alice(0, 0)]));
    flagged_at_104(&mut detector);
    let mut far = alice(0, 0);
    far.position = Vector { x: 1000 * DEG, y: 0, z: 0 };
    tick(&mut detector, &state(110, vec![far]));
    assert_eq!(detector.finish().unwrap(), Vec::new());
}

#[test]
fn a_spawn_withdraws_the_finding_too() {
    let mut detector = AngleRepeat::new();
    let query = AngleQuery {
        player: ALICE,
        tick: 104,
        pairs: vec![(angles(0, 0), angles(20 * DEG, 0)), (angles(0, 0), angles(10_000, 0))],
    };
    detector.on_angles(&query, &vec![20 * DEG, 10_000]).unwrap();
    assert_eq!(detector.finish().unwrap().len(), 1);
    let s = state(120, vec![alice(0, 0)]);
    detector
        .on_message(&Message::GameEvent(GameEvent::PlayerSpawn { user_id: 11 }), &s, 120)
        .unwrap();
    tick(&mut detector, &s);
    assert_eq!(detector.finish().unwrap(), Vec::new());
}

#[test]
fn retracting_keeps_the_order_of_what_stays() {
    let finding = |player: u64, tick: u32| Detection {
        tick,
        algorithm: "x".to_string(),
        player,
        data: DetectionData::Deltas(vec![tick as i64]),
    };
    let mut findings =
        vec![finding(BOB, 5), finding(ALICE, 40), finding(ALICE, 39), finding(BOB, 90), finding(ALICE, 100)];
    retract(&mut findings, ALICE, 100, 60);
    assert_eq!(findings, vec![finding(BOB, 5), finding(ALICE, 39), finding(BOB, 90)]);
    retract(&mut findings, ALICE, 100, 60);
    assert_eq!(findings.len(), 3);
    retract(&mut findings, BOB, 90, 0);
    assert_eq!(findings, vec![finding(BOB, 5), finding(ALICE, 39)]);
    let copy = copy_detections(&findings);
    assert_eq!(copy, findings);
    assert_eq!(findings[0].duplicate(), findings[0]);
}

#[test]
fn ratios_are_judged_exactly() {
    // 20 degrees against 4 degrees: five times as far.
    assert_eq!(judge_ratio(20 * DEG, 4 * DEG, 3 * DEG), (true, 5 * DEG));
    assert_eq!(judge_ratio(20 * DEG, 4 * DEG, 5 * DEG), (false, 5 * DEG));
    // Distances below one degree are taken as one degree.
    assert_eq!(judge_ratio(20 * DEG, 10_000, 3 * DEG), (true, 20 * DEG));
    assert_eq!(judge_ratio(3 * DEG, 0, 3 * DEG), (false, 3 * DEG));
    assert_eq!(judge_ratio(3 * DEG + 1, 0, 3 * DEG), (true, 3 * DEG + 1));
    // 10 / 3 = 3.333333...
    assert_eq!(judge_ratio(10 * DEG, 3 * DEG, 3_333_333), (true, 3_333_333));
    assert_eq!(judge_ratio(10 * DEG, 3 * DEG, 3_333_334), (false, 3_333_333));
    assert_eq!(judge_ratio(-10 * DEG, 3 * DEG, -4 * DEG), (true, -3_333_333));
    assert_eq!(judge_ratio(i64::MAX, i64::MAX, i64::MAX).0, false);
    assert_eq!(judge_ratio(i64::MAX, 0, 0), (true, i64::MAX));
    assert_eq!(judge_ratio(i64::MIN, 0, 0), (false, i64::MIN));
}

#[test]
fn an_aim_that_jumps_away_and_back_is_flagged() {
    let mut detector = AngleRepeat::new();
    assert_eq!(tick(&mut detector, &state(100, vec![alice(0, 0)])).queries, Vec::new());
    assert_eq!(tick(&mut detector, &state(101, vec![alice(20 * DEG, 0)])).queries, Vec::new());
    let asked = tick(&mut detector, &state(102, vec![alice(10_000, 0)])).queries;
    assert_eq!(
        asked,
        vec![AngleQuery {
            player: ALICE,
            tick: 102,
            pairs: vec![
                (angles(0, 0), angles(20 * DEG, 0)),
                (angles(0, 0), angles(10_000, 0)),
            ],
        }]
    );
    let deltas = measure(&asked[0]);
    assert_eq!(deltas, vec![20 * DEG, 10_000]);
    assert_eq!(detector.on_angles(&asked[0], &deltas).unwrap(), Vec::new());
    assert_eq!(
        detector.finish().unwrap(),
        vec![Detection {
            tick: 102,
            algorithm: "nocrex/angle_repeat".to_string(),
            player: ALICE,
            data: DetectionData::AngleRepeat {
                angle_1: angles(0, 0),
                angle_2: angles(20 * DEG, 0),
                angle_3: angles(10_000, 0),
                delta_1_3: 10_000,
                delta_1_2: 20 * DEG,
                ratio: 20 * DEG,
            },
        }]
    );
}

#[test]
fn repetitions_are_judged_by_the_three_thresholds() {
    let query = AngleQuery {
        player: ALICE,
        tick: 102,
        pairs: vec![(angles(0, 0), angles(1, 0)), (angles(0, 0), angles(2, 0))],
    };
    let flagged = |detector: &mut AngleRepeat, deltas: Vec<i64>| {
        let before = detector.finish().unwrap().len();
        detector.on_angles(&query, &deltas).unwrap();
        detector.finish().unwrap().len() - before
    };
    let mut detector = AngleRepeat::new();
    assert_eq!(flagged(&mut detector, vec![20 * DEG, 28_000]), 1);
    // The aim did not come back.
    assert_eq!(flagged(&mut detector, vec![20 * DEG, 28_001]), 0);
    // The aim did not go far enough.
    assert_eq!(flagged(&mut detector, vec![3 * DEG, 0]), 0);
    assert_eq!(flagged(&mut detector, vec![3 * DEG + 1, 0]), 1);
    detector.set_param("min_first_second_angle_delta", Parameter::Float(5 * DEG));
    assert_eq!(flagged(&mut detector, vec![5 * DEG - 1, 0]), 0);
    assert_eq!(flagged(&mut detector, vec![5 * DEG, 0]), 1);
    // Anything but two distances for two pairs is passed over.
    assert_eq!(flagged(&mut detector, vec![20 * DEG]), 0);
    assert_eq!(flagged(&mut detector, vec![20 * DEG, 0, 0]), 0);
    assert_eq!(flagged(&mut detector, Vec::new()), 0);
    let short = AngleQuery { player: ALICE, tick: 102, pairs: Vec::new() };
    detector.on_angles(&short, &vec![20 * DEG, 0]).unwrap();
    assert_eq!(detector.finish().unwrap().len(), 3);
}

#[test]
fn a_repetition_right_after_a_shot_is_not_flagged() {
    let s = state(0, vec![alice(0, 0)]);
    let query = AngleQuery {
        player: ALICE,
        tick: 102,
        pairs: vec![(angles(0, 0), angles(1, 0)), (angles(0, 0), angles(2, 0))],
    };
    for (shot_tick, flagged) in [(102, 0), (98, 0), (97, 1)] {
        let mut detector = AngleRepeat::new();
        detector.on_message(&shot_by(1), &s, shot_tick).unwrap();
        detector.on_angles(&query, &vec![20 * DEG, 0]).unwrap();
        assert_eq!(detector.finish().unwrap().len(), flagged, "shot at {}", shot_tick);
    }
}

#[test]
fn a_repetition_needs_three_samples_in_a_row() {
    let mut detector = AngleRepeat::new();
    tick(&mut detector, &state(100, vec![alice(0, 0)]));
    tick(&mut detector, &state(101, Vec::new()));
    assert_eq!(tick(&mut detector, &state(102, vec![alice(0, 0)])).queries, Vec::new());
    assert_eq!(tick(&mut detector, &state(103, vec![alice(0, 0)])).queries, Vec::new());
    assert_eq!(tick(&mut detector, &state(104, vec![alice(0, 0)])).queries.len(), 1);
}

fn turn_finding(player: u64, tick: u32, va_delta: i64, pa_delta: i64) -> Detection {
    Detection {
        tick,
        algorithm: "viewangles_180degrees".to_string(),
        player,
        data: DetectionData::ViewAngleDelta { va_delta, pa_delta },
    }
}

#[test]
fn half_a_turn_in_one_tick_is_flagged() {
    let mut detector = ViewAngles180Degrees::new();
    // Nothing to compare with at the first boundary.
    assert_eq!(tick(&mut detector, &state(1, vec![alice(0, 0)])).detections, Vec::new());
    let report = tick(&mut detector, &state(2, vec![alice(180 * DEG, 0)]));
    assert_eq!(report.detections, vec![turn_finding(ALICE, 2, 180 * DEG, 0)]);
    assert_eq!(report.queries, Vec::new());
    assert_eq!(tick(&mut detector, &state(3, vec![alice(1 * DEG, 0)])).detections, Vec::new());
    assert_eq!(
        tick(&mut detector, &state(4, vec![alice(1 * DEG, 180 * DEG)])).detections,
        vec![turn_finding(ALICE, 4, 0, 180 * DEG)]
    );
    assert_eq!(
        tick(&mut detector, &state(5, vec![alice(1 * DEG, -10 * DEG)])).detections,
        vec![turn_finding(ALICE, 5, 0, -190 * DEG)]
    );
    assert_eq!(detector.finish().unwrap(), Vec::new());
}

#[test]
fn slower_turns_are_not_flagged() {
    let mut detector = ViewAngles180Degrees::new();
    tick(&mut detector, &state(1, vec![alice(0, -89 * DEG)]));
    assert_eq!(tick(&mut detector, &state(2, vec![alice(179_999_999, 89 * DEG)])).detections, Vec::new());
    // Half a turn over two ticks is a quarter turn per tick.
    tick(&mut detector, &state(3, vec![alice(0, 0)]));
    assert_eq!(tick(&mut detector, &state(5, vec![alice(180 * DEG, 0)])).detections, Vec::new());
}

#[test]
fn turns_are_measured_against_the_previous_boundary_only() {
    let mut detector = ViewAngles180Degrees::new();
    tick(&mut detector, &state(1, vec![alice(0, 0), bob(0, 0)]));
    tick(&mut detector, &state(2, vec![bob(0, 0)]));
    // Alice was not followed at the previous boundary.
    assert_eq!(
        tick(&mut detector, &state(3, vec![alice(180 * DEG, 0), bob(180 * DEG, 0)])).detections,
        vec![turn_finding(BOB, 3, 180 * DEG, 0)]
    );
}

#[test]
fn a_boundary_that_is_not_later_counts_as_one_tick() {
    let mut detector = ViewAngles180Degrees::new();
    tick(&mut detector, &state(10, vec![alice(0, 0)]));
    assert_eq!(
        tick(&mut detector, &state(10, vec![alice(180 * DEG, 0)])).detections,
        vec![turn_finding(ALICE, 10, 180 * DEG, 0)]
    );
    assert_eq!(
        tick(&mut detector, &state(4, vec![alice(0, 0)])).detections,
        vec![turn_finding(ALICE, 4, 180 * DEG, 0)]
    );
    assert_eq!(
        tick(&mut detector, &state(0, vec![alice(180 * DEG, 0)])).detections,
        vec![turn_finding(ALICE, 0, 180 * DEG, 0)]
    );
}

#[test]
fn detectors_without_a_guard_pass_messages_and_angles_over() {
    let s = state(0, vec![alice(0, 95 * DEG)]);
    let query = AngleQuery { player: ALICE, tick: 1, pairs: Vec::new() };
    let mut pitch = OOBPitch::new();
    assert_eq!(pitch.on_message(&shot_by(1), &s, 1).unwrap(), Vec::new());
    assert_eq!(pitch.on_angles(&query, &vec![1, 2]).unwrap(), Vec::new());
    assert_eq!(tick(&mut pitch, &s).detections.len(), 1);
    let mut turn = ViewAngles180Degrees::new();
    assert_eq!(turn.on_message(&shot_by(1), &s, 1).unwrap(), Vec::new());
    assert_eq!(turn.on_angles(&query, &vec![1, 2]).unwrap(), Vec::new());
}

fn row(tick: u32, name: &str, steam_id: &str, yaw: i64, pitch: i64, deltas: Option<(i64, i64)>) -> Record {
    Record {
        tick,
        name: name.to_string(),
        steam_id: steam_id.to_string(),
        origin: Vector { x: 0, y: 0, z: 0 },
        viewangle: yaw,
        pitchangle: pitch,
        deltas,
    }
}

#[test]
fn the_recorder_runs_on_demand_only() {
    let mut recorder = ViewAnglesToCSV::new();
    assert_eq!(recorder.algorithm_name(), "viewangles_to_csv");
    assert!(!recorder.default());
    assert!(recorder.init().is_ok());
    assert_eq!(recorder.handled_messages(), Err(false));
    assert!(!recorder.does_handle(MessageType::NetTick));
    assert_eq!(recorder.params(), Vec::new());
    recorder.set_param("anything", Parameter::Int(1));
    assert_eq!(recorder.records(), &Vec::new());
    assert_eq!(recorder.finish().unwrap(), Vec::new());
}

#[test]
fn the_recorder_gathers_a_row_per_visible_player_and_boundary() {
    let mut recorder = ViewAnglesToCSV::new();
    let mut first = alice(350 * DEG, 10 * DEG);
    first.position = Vector { x: 1, y: 2, z: 3 };
    first.info.as_mut().unwrap().name = "al\"ice".to_string();
    let report = tick(&mut recorder, &state(10, vec![first]));
    assert_eq!(report.detections, Vec::new());
    assert_eq!(report.queries, Vec::new());
    let mut hidden = bob(0, 0);
    hidden.in_pvs = false;
    // A text that denotes no identity is as good as any other here.
    let stranger = followed(3, 13, "no identity", 5 * DEG, 0);
    tick(&mut recorder, &state(12, vec![hidden, alice(10 * DEG, 0), stranger, followed(4, 14, "BOT", 0, 0)]));
    tick(&mut recorder, &state(13, vec![bob(90 * DEG, 0), followed(3, 13, "no identity", 5 * DEG, 1 * DEG)]));
    let mut expected = vec![
        row(10, "\"al\"\"ice\"", "[U:1:22202]", 350 * DEG, 10 * DEG, None),
        // Twenty degrees of yaw and minus ten of pitch over two ticks.
        row(12, "\"player 1\"", "[U:1:22202]", 10 * DEG, 0, Some((10 * DEG, -5 * DEG))),
        row(12, "\"player 3\"", "no identity", 5 * DEG, 0, None),
        row(13, "\"player 2\"", "[U:1:5]", 90 * DEG, 0, None),
        row(13, "\"player 3\"", "no identity", 5 * DEG, 1 * DEG, Some((0, 1 * DEG))),
    ];
    expected[0].origin = Vector { x: 1, y: 2, z: 3 };
    assert_eq!(recorder.records(), &expected);
    assert_eq!(recorder.finish().unwrap(), Vec::new());
    assert_eq!(recorder.take_records(), expected);
    assert_eq!(recorder.records(), &Vec::new());
    // The samples of the last boundary are kept.
    tick(&mut recorder, &state(14, vec![bob(100 * DEG, 0)]));
    assert_eq!(
        recorder.take_records(),
        vec![row(14, "\"player 2\"", "[U:1:5]", 100 * DEG, 0, Some((10 * DEG, 0)))]
    );
}
