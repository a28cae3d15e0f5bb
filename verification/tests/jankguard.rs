use demo_analysis::algorithm::{Detection, DetectionData};
use demo_analysis::base::records::{GameEvent, Message, MessageType, Prop, PropValue, TempEntity};
use demo_analysis::base::state::{CheatAnalyserState, Player, PlayerState, UserInfo};
use demo_analysis::util::helpers::Vector;
use demo_analysis::util::jankguard::{jumped, JankGuard, QUIET_TICKS, TELEPORT_DIST};
use tf_demo_parser::demo::sendprop::SendPropIdentifier;

const UNIT: i64 = 1_000_000;
const ALICE: u64 = 76561197960287930;
const BOB: u64 = 76561197960265733;

fn followed(entity: u32, user_id: u16, steam_id: &str) -> Player {
    let mut p = Player::new(entity);
    p.in_pvs = true;
    p.info = Some(UserInfo {
        entity_id: entity,
        name: format!("player {}", entity),
        user_id,
        steam_id: steam_id.to_string(),
    });
    p
}

fn state(tick: u32, players: Vec<Player>) -> CheatAnalyserState {
    let mut s = CheatAnalyserState::new();
    s.players = players;
    s.tick = tick;
    s
}

fn two_players(tick: u32) -> CheatAnalyserState {
    state(tick, vec![followed(1, 11, "[U:1:22202]"), followed(2, 12, "[U:1:5]")])
}

fn effect(class_id: u16, table: &str, name: &str, value: PropValue) -> TempEntity {
    TempEntity {
        class_id,
        props: vec![Prop {
            index: 0,
            identifier: SendPropIdentifier::new(table, name).into(),
            value,
        }],
    }
}

fn finding(player: u64, tick: u32) -> Detection {
    Detection {
        tick,
        algorithm: "test".to_string(),
        player,
        data: DetectionData::Pitch(0),
    }
}

#[test]
fn identities_are_decoded_from_the_bracketed_notation() {
    assert_eq!(followed(1, 1, "[U:1:22202]").tracked_identity(), Some(ALICE));
    assert_eq!(followed(1, 1, "[U:1:5]").tracked_identity(), Some(BOB));
    assert_eq!(followed(1, 1, "[U:1:5]").recorded_identity(), Some(BOB));
    // The text itself is no identity.
    assert_eq!(followed(1, 1, "22202").tracked_identity(), None);
    assert_eq!(followed(1, 1, "").tracked_identity(), None);
    assert_eq!(followed(1, 1, "STEAM_1:0:11101").tracked_identity(), None);
}

#[test]
fn only_visible_living_named_players_are_followed() {
    assert_eq!(followed(1, 1, "BOT").tracked_identity(), None);
    assert_eq!(followed(1, 1, "BOT").recorded_identity(), None);
    let mut hidden = followed(1, 1, "[U:1:5]");
    hidden.in_pvs = false;
    assert_eq!(hidden.tracked_identity(), None);
    assert_eq!(hidden.recorded_identity(), Some(BOB));
    for life in [PlayerState::Dying, PlayerState::Death, PlayerState::Respawnable] {
        let mut dead = followed(1, 1, "[U:1:5]");
        dead.state = life;
        assert_eq!(dead.tracked_identity(), None);
    }
    let mut anonymous = followed(1, 1, "[U:1:5]");
    anonymous.info = None;
    assert_eq!(anonymous.tracked_identity(), None);
    assert_eq!(anonymous.recorded_identity(), None);
}

#[test]
fn identities_are_found_by_user_and_by_entity() {
    let mut s = two_players(0);
    s.players.insert(0, Player::new(9));
    assert_eq!(s.get_id64_from_userid(11), Some(ALICE));
    assert_eq!(s.get_id64_from_userid(12), Some(BOB));
    assert_eq!(s.get_id64_from_userid(13), None);
    assert_eq!(s.get_id64_from_entity(1), Some(ALICE));
    assert_eq!(s.get_id64_from_entity(2), Some(BOB));
    assert_eq!(s.get_id64_from_entity(9), None);
    assert_eq!(s.get_id64_from_entity(3), None);
    // The first player that carries a user id decides.
    s.players.push(followed(4, 11, "[U:1:7]"));
    assert_eq!(s.get_id64_from_userid(11), Some(ALICE));
    assert_eq!(s.get_id64_from_entity(4), Some(ALICE));
}

#[test]
fn a_fresh_guard_counts_from_tick_zero() {
    let jg = JankGuard::new();
    assert_eq!(jg.teleported(&ALICE, 100), 100);
    assert_eq!(jg.spawned(&ALICE, 100), 100);
    assert_eq!(jg.fired(&ALICE, 100), 100);
    assert_eq!(jg.teleported(&ALICE, 0), 0);
}

#[test]
fn the_guard_reads_game_events_and_effects() {
    let jg = JankGuard::new();
    assert_eq!(
        jg.handled_messages(),
        Ok(vec![MessageType::GameEvent, MessageType::TempEntities])
    );
}

#[test]
fn spawns_are_recorded() {
    let s = two_players(0);
    let mut jg = JankGuard::new();
    jg.on_message(&Message::GameEvent(GameEvent::PlayerSpawn { user_id: 11 }), &s, 40);
    assert_eq!(jg.spawned(&ALICE, 40), 0);
    assert_eq!(jg.spawned(&ALICE, 100), 60);
    assert_eq!(jg.spawned(&BOB, 100), 100);
    assert_eq!(jg.teleported(&ALICE, 100), 100);
    assert_eq!(jg.fired(&ALICE, 100), 100);
    jg.on_message(&Message::GameEvent(GameEvent::PostInventoryApplication { user_id: 11 }), &s, 70);
    assert_eq!(jg.spawned(&ALICE, 100), 30);
}

#[test]
fn teleports_are_recorded() {
    let s = two_players(0);
    let mut jg = JankGuard::new();
    jg.on_message(&Message::GameEvent(GameEvent::PlayerTeleported { user_id: 12 }), &s, 55);
    assert_eq!(jg.teleported(&BOB, 100), 45);
    assert_eq!(jg.teleported(&ALICE, 100), 100);
    assert_eq!(jg.spawned(&BOB, 100), 100);
}

#[test]
fn events_for_unknown_users_and_other_messages_are_passed_over() {
    let s = two_players(0);
    let mut jg = JankGuard::new();
    jg.on_message(&Message::GameEvent(GameEvent::PlayerSpawn { user_id: 99 }), &s, 40);
    jg.on_message(&Message::GameEvent(GameEvent::PlayerTeleported { user_id: 99 }), &s, 40);
    jg.on_message(&Message::GameEvent(GameEvent::RoundStart), &s, 40);
    jg.on_message(&Message::GameEvent(GameEvent::ObjectDestroyed { index: 1 }), &s, 40);
    jg.on_message(&Message::NetTick, &s, 40);
    jg.on_message(&Message::Other(MessageType::VoiceData), &s, 40);
    for id in [ALICE, BOB] {
        assert_eq!(jg.spawned(&id, 100), 100);
        assert_eq!(jg.teleported(&id, 100), 100);
        assert_eq!(jg.fired(&id, 100), 100);
    }
}

#[test]
fn a_tick_before_the_last_event_counts_as_no_time_passed() {
    let s = two_players(0);
    let mut jg = JankGuard::new();
    jg.on_message(&Message::GameEvent(GameEvent::PlayerSpawn { user_id: 11 }), &s, 40);
    assert_eq!(jg.spawned(&ALICE, 39), 0);
}

#[test]
fn bullet_tracers_record_a_shot() {
    let s = two_players(0);
    let mut jg = JankGuard::new();
    let shot = effect(152, "DT_TEFireBullets", "m_iPlayer", PropValue::Integer(2));
    jg.on_message(&Message::TempEntities(vec![shot]), &s, 80);
    assert_eq!(jg.fired(&BOB, 82), 2);
    assert_eq!(jg.fired(&ALICE, 82), 82);
    assert_eq!(jg.spawned(&BOB, 82), 82);
}

#[test]
fn animation_cues_record_a_shot_by_handle() {
    let s = two_players(0);
    let mut jg = JankGuard::new();
    // A handle holds the entity slot in its low eleven bits.
    let handle = (37 << 11) | 1;
    let cue = effect(165, "DT_TEPlayerAnimEvent", "m_hPlayer", PropValue::Integer(handle));
    jg.on_message(&Message::TempEntities(vec![cue]), &s, 80);
    assert_eq!(jg.fired(&ALICE, 80), 0);
    assert_eq!(jg.fired(&BOB, 80), 80);
}

#[test]
fn effects_that_name_nobody_record_nothing() {
    let s = two_players(0);
    let mut jg = JankGuard::new();
    let effects = vec![
        // Another class of effect.
        effect(153, "DT_TEFireBullets", "m_iPlayer", PropValue::Integer(1)),
        // The property of the other kind of effect.
        effect(152, "DT_TEPlayerAnimEvent", "m_hPlayer", PropValue::Integer(1)),
        effect(165, "DT_TEFireBullets", "m_iPlayer", PropValue::Integer(1)),
        // Another property.
        effect(152, "DT_TEFireBullets", "m_iMode", PropValue::Integer(1)),
        // No integer.
        effect(152, "DT_TEFireBullets", "m_iPlayer", PropValue::Float(1)),
        // An entity without a player.
        effect(152, "DT_TEFireBullets", "m_iPlayer", PropValue::Integer(7)),
        // A handle that does not fit reads as slot zero.
        effect(165, "DT_TEPlayerAnimEvent", "m_hPlayer", PropValue::Integer(-1)),
        effect(165, "DT_TEPlayerAnimEvent", "m_hPlayer", PropValue::Integer((1 << 32) | 1)),
        TempEntity { class_id: 152, props: Vec::new() },
    ];
    jg.on_message(&Message::TempEntities(effects), &s, 80);
    assert_eq!(jg.fired(&ALICE, 100), 100);
    assert_eq!(jg.fired(&BOB, 100), 100);
}

#[test]
fn the_last_effect_of_a_message_decides() {
    let s = two_players(0);
    let mut jg = JankGuard::new();
    let both = TempEntity {
        class_id: 152,
        props: vec![
            Prop {
                index: 0,
                identifier: SendPropIdentifier::new("DT_TEFireBullets", "m_iPlayer").into(),
                value: PropValue::Integer(1),
            },
            Prop {
                index: 1,
                identifier: SendPropIdentifier::new("DT_TEFireBullets", "m_iPlayer").into(),
                value: PropValue::Integer(2),
            },
        ],
    };
    jg.on_message(&Message::TempEntities(vec![both]), &s, 80);
    assert_eq!(jg.fired(&ALICE, 90), 10);
    assert_eq!(jg.fired(&BOB, 90), 10);
}

#[test]
fn the_teleport_distance_is_256_units() {
    assert_eq!(TELEPORT_DIST, 256 * UNIT);
    assert_eq!(QUIET_TICKS, 60);
    let origin = Vector { x: 0, y: 0, z: 0 };
    assert!(!jumped(&origin, &origin));
    assert!(!jumped(&origin, &Vector { x: 256 * UNIT, y: 0, z: 0 }));
    assert!(jumped(&origin, &Vector { x: 256 * UNIT + 1, y: 0, z: 0 }));
    assert!(jumped(&origin, &Vector { x: 256 * UNIT, y: 1, z: 0 }));
    assert!(jumped(&Vector { x: 0, y: 0, z: -200 * UNIT }, &Vector { x: 0, y: 0, z: 57 * UNIT }));
    // 192^2 + 144^2 + 90^2 = 65700 > 65536 = 256^2, and 192^2 + 144^2 + 88^2 = 65344.
    assert!(jumped(&origin, &Vector { x: 192 * UNIT, y: -144 * UNIT, z: 90 * UNIT }));
    assert!(!jumped(&origin, &Vector { x: 192 * UNIT, y: -144 * UNIT, z: 88 * UNIT }));
    assert!(jumped(
        &Vector { x: i64::MIN, y: i64::MIN, z: i64::MIN },
        &Vector { x: i64::MAX, y: i64::MAX, z: i64::MAX }
    ));
}

#[test]
fn a_jump_between_boundaries_counts_as_a_teleport() {
    let mut jg = JankGuard::new();
    let mut s = two_players(100);
    jg.on_tick(&s);
    // Nothing to compare with at the first boundary.
    assert_eq!(jg.teleported(&ALICE, 100), 100);
    s.tick = 101;
    s.players[0].position = Vector { x: 300 * UNIT, y: 0, z: 0 };
    s.players[1].position = Vector { x: 10 * UNIT, y: 0, z: 0 };
    jg.on_tick(&s);
    assert_eq!(jg.teleported(&ALICE, 101), 0);
    assert_eq!(jg.teleported(&BOB, 101), 101);
    s.tick = 102;
    s.players[0].position = Vector { x: 310 * UNIT, y: 0, z: 0 };
    jg.on_tick(&s);
    assert_eq!(jg.teleported(&ALICE, 102), 1);
}

#[test]
fn a_player_that_was_out_of_sight_has_no_previous_position() {
    let mut jg = JankGuard::new();
    let mut s = two_players(100);
    jg.on_tick(&s);
    s.tick = 101;
    s.players[0].in_pvs = false;
    jg.on_tick(&s);
    // Back in sight far away: the position of two boundaries ago is forgotten.
    s.tick = 102;
    s.players[0].in_pvs = true;
    s.players[0].position = Vector { x: 5000 * UNIT, y: 0, z: 0 };
    jg.on_tick(&s);
    assert_eq!(jg.teleported(&ALICE, 102), 102);
}

#[test]
fn settling_withdraws_recent_findings_of_the_player() {
    let s = two_players(0);
    let mut jg = JankGuard::new();
    jg.on_message(&Message::GameEvent(GameEvent::PlayerTeleported { user_id: 11 }), &s, 200);
    let mut findings = vec![
        finding(ALICE, 139),
        finding(ALICE, 140),
        finding(BOB, 190),
        finding(ALICE, 200),
        finding(ALICE, 201),
    ];
    assert!(jg.settle(&mut findings, &ALICE, 200));
    // Findings of the player up to sixty ticks back go, and so does one that is
    // dated past the tick; older ones and those of others stay, in order.
    assert_eq!(findings, vec![finding(ALICE, 139), finding(BOB, 190)]);
}

#[test]
fn settling_later_withdraws_nothing() {
    let s = two_players(0);
    let mut jg = JankGuard::new();
    jg.on_message(&Message::GameEvent(GameEvent::PlayerSpawn { user_id: 11 }), &s, 200);
    let all = vec![finding(ALICE, 199), finding(BOB, 190)];
    let mut findings = all.clone();
    // One tick later the player is still left alone, and nothing is withdrawn.
    assert!(jg.settle(&mut findings, &ALICE, 201));
    assert_eq!(findings, all);
    assert!(jg.settle(&mut findings, &ALICE, 259));
    assert!(!jg.settle(&mut findings, &ALICE, 260));
    assert!(!jg.settle(&mut findings, &BOB, 260));
    assert_eq!(findings, all);
}
