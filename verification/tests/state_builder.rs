use demo_analysis::algorithms::{algorithms, Algorithm};
use demo_analysis::base::builder::{classify, EntityClass};
use demo_analysis::base::cheat_analyser_base::CheatAnalyser;
use demo_analysis::base::records::{
    EntityUpdate, GameEvent, Message, MessageType, Prop, PropValue, UpdateType,
};
use demo_analysis::base::state::{
    Building, BuildingBase, BuildingClass, CheatAnalyserState, Class, Player, PlayerState, Team,
    UserInfo, World,
};
use demo_analysis::util::helpers::{Vector, VectorXY};
use tf_demo_parser::demo::data::userinfo::PlayerInfo;
use tf_demo_parser::demo::parser::analyser::Class as TheirClass;
use tf_demo_parser::demo::parser::analyser::Team as TheirTeam;
use tf_demo_parser::demo::sendprop::SendPropIdentifier;

const DEG: i64 = 1_000_000;

fn id(table: &str, name: &str) -> u64 {
    SendPropIdentifier::new(table, name).into()
}

fn prop(table: &str, name: &str, value: PropValue) -> Prop {
    Prop { index: 0, identifier: id(table, name), value }
}

fn whole(table: &str, name: &str, value: i64) -> Prop {
    prop(table, name, PropValue::Integer(value))
}

fn measure(table: &str, name: &str, value: i64) -> Prop {
    prop(table, name, PropValue::Float(value))
}

fn update(server_class: u16, entity_index: u32, props: Vec<Prop>) -> EntityUpdate {
    EntityUpdate { server_class, entity_index, props, in_pvs: true, update_type: UpdateType::Delta }
}

fn delete(server_class: u16, entity_index: u32) -> EntityUpdate {
    EntityUpdate {
        server_class,
        entity_index,
        props: Vec::new(),
        in_pvs: false,
        update_type: UpdateType::Delete,
    }
}

const PLAYER: u16 = 0;
const RESOURCE: u16 = 1;
const WORLD: u16 = 2;
const SENTRY: u16 = 3;
const DISPENSER: u16 = 4;
const TELEPORTER: u16 = 5;
const OTHER: u16 = 6;

fn analyser() -> CheatAnalyser<Algorithm> {
    let mut analyser = CheatAnalyser::new(algorithms());
    let names: Vec<String> = [
        "CTFPlayer",
        "CTFPlayerResource",
        "CWorld",
        "CObjectSentrygun",
        "CObjectDispenser",
        "CObjectTeleporter",
        "CTFRocket",
    ]
    .iter()
    .map(|s| s.to_string())
    .collect();
    analyser.handle_data_tables(&names);
    analyser
}

#[test]
fn life_states_are_read_from_numbers() {
    assert_eq!(PlayerState::new(0), PlayerState::Alive);
    assert_eq!(PlayerState::new(1), PlayerState::Dying);
    assert_eq!(PlayerState::new(2), PlayerState::Death);
    assert_eq!(PlayerState::new(3), PlayerState::Respawnable);
    assert_eq!(PlayerState::new(4), PlayerState::Alive);
    assert_eq!(PlayerState::new(-1), PlayerState::Alive);
    assert_eq!(PlayerState::new(i64::MAX), PlayerState::Alive);
}

#[test]
fn teams_are_read_as_the_decoder_reads_them() {
    for n in [-1i64, 0, 1, 2, 3, 4, 255, 256, 258, i64::MAX, i64::MIN] {
        let expected = match TheirTeam::new(n) {
            TheirTeam::Other => Team::Other,
            TheirTeam::Spectator => Team::Spectator,
            TheirTeam::Red => Team::Red,
            TheirTeam::Blue => Team::Blue,
        };
        assert_eq!(Team::new(n), expected, "{}", n);
    }
    assert_eq!(Team::new(2), Team::Red);
    assert_eq!(Team::new(3), Team::Blue);
}

#[test]
fn classes_are_read_as_the_decoder_reads_them() {
    for n in [-1i64, 0, 1, 2, 3, 4, 5, 6, 7, 8, 9, 10, 255, 256, 257, i64::MAX] {
        let expected = match TheirClass::new(n) {
            TheirClass::Other => Class::Other,
            TheirClass::Scout => Class::Scout,
            TheirClass::Sniper => Class::Sniper,
            TheirClass::Soldier => Class::Soldier,
            TheirClass::Demoman => Class::Demoman,
            TheirClass::Medic => Class::Medic,
            TheirClass::Heavy => Class::Heavy,
            TheirClass::Pyro => Class::Pyro,
            TheirClass::Spy => Class::Spy,
            TheirClass::Engineer => Class::Engineer,
        };
        assert_eq!(Class::new(n), expected, "{}", n);
    }
    assert_eq!(Class::new(5), Class::Medic);
}

#[test]
fn server_classes_are_told_apart_by_name() {
    assert_eq!(classify("CTFPlayer"), EntityClass::Player);
    assert_eq!(classify("CTFPlayerResource"), EntityClass::PlayerResource);
    assert_eq!(classify("CWorld"), EntityClass::World);
    assert_eq!(classify("CObjectSentrygun"), EntityClass::Sentry);
    assert_eq!(classify("CObjectDispenser"), EntityClass::Dispenser);
    assert_eq!(classify("CObjectTeleporter"), EntityClass::Teleporter);
    assert_eq!(classify(""), EntityClass::Other);
    assert_eq!(classify("ctfplayer"), EntityClass::Other);
    assert_eq!(classify("CTFPlayer "), EntityClass::Other);
}

#[test]
fn message_kinds() {
    assert_eq!(Message::NetTick.get_message_type(), MessageType::NetTick);
    assert_eq!(Message::PacketEntities(Vec::new()).get_message_type(), MessageType::PacketEntities);
    assert_eq!(
        Message::GameEvent(GameEvent::RoundStart).get_message_type(),
        MessageType::GameEvent
    );
    assert_eq!(Message::TempEntities(Vec::new()).get_message_type(), MessageType::TempEntities);
    assert_eq!(Message::Other(MessageType::VoiceData).get_message_type(), MessageType::VoiceData);
    assert!(CheatAnalyser::<Algorithm>::does_handle(MessageType::PacketEntities));
    assert!(CheatAnalyser::<Algorithm>::does_handle(MessageType::GameEvent));
    assert!(CheatAnalyser::<Algorithm>::does_handle(MessageType::NetTick));
    assert!(!CheatAnalyser::<Algorithm>::does_handle(MessageType::TempEntities));
    assert!(!CheatAnalyser::<Algorithm>::does_handle(MessageType::VoiceData));
}

#[test]
fn prop_values_fall_back_to_zero() {
    assert_eq!(PropValue::Integer(7).as_integer(), 7);
    assert_eq!(PropValue::Float(7).as_integer(), 0);
    assert_eq!(PropValue::String("7".to_string()).as_integer(), 0);
    assert_eq!(PropValue::Float(7).as_float(), 7);
    assert_eq!(PropValue::Integer(7).as_float(), 0);
    let v = Vector { x: 1, y: 2, z: 3 };
    assert_eq!(PropValue::Vector(v).as_vector(), v);
    assert_eq!(PropValue::Integer(1).as_vector(), Vector { x: 0, y: 0, z: 0 });
    let xy = VectorXY { x: 1, y: 2 };
    assert_eq!(PropValue::VectorXY(xy).as_vector_xy(), xy);
    assert_eq!(PropValue::Vector(v).as_vector_xy(), VectorXY { x: 0, y: 0 });
    assert_eq!(PropValue::Array(vec![Some(1)]).as_integer(), 0);
}

#[test]
fn players_are_created_in_the_order_first_seen() {
    let mut state = CheatAnalyserState::new();
    assert!(state.players.is_empty());
    state.get_or_create_player(7).health = 70;
    state.get_or_create_player(3).health = 30;
    state.get_or_create_player(9).health = 90;
    // Asking again creates nothing and finds the same player.
    assert_eq!(state.get_or_create_player(3).health, 30);
    state.get_or_create_player(7).health = 71;
    let seen: Vec<(u32, u16)> = state.players.iter().map(|p| (p.entity, p.health)).collect();
    assert_eq!(seen, vec![(7, 71), (3, 30), (9, 90)]);
    assert_eq!(state.player_index(3), Some(1));
    assert_eq!(state.player_index(4), None);
    assert_eq!(state.ensure_player(9), 2);
    assert_eq!(state.ensure_player(1), 3);
    assert_eq!(state.players.len(), 4);
}

#[test]
fn a_fresh_player_has_default_fields() {
    let p = Player::new(12);
    assert_eq!(p.entity, 12);
    assert_eq!(p.position, Vector { x: 0, y: 0, z: 0 });
    assert_eq!((p.health, p.max_health, p.charge, p.simtime, p.ping, p.shot_fired), (0, 0, 0, 0, 0, 0));
    assert_eq!(p.class, Class::Other);
    assert_eq!(p.team, Team::Other);
    assert_eq!(p.state, PlayerState::Alive);
    assert_eq!((p.view_angle, p.pitch_angle), (0, 0));
    assert_eq!(p.info, None);
    assert!(!p.in_pvs);
    assert_eq!(p.duplicate(), p);
}

#[test]
fn player_updates_set_the_modelled_fields() {
    let mut a = analyser();
    a.handle_entity(&update(
        PLAYER,
        4,
        vec![
            whole("DT_BasePlayer", "m_iHealth", 125),
            whole("DT_BasePlayer", "m_iMaxHealth", 150),
            whole("DT_BasePlayer", "m_lifeState", 2),
            prop(
                "DT_TFNonLocalPlayerExclusive",
                "m_vecOrigin",
                PropValue::VectorXY(VectorXY { x: 10 * DEG, y: -20 * DEG }),
            ),
            measure("DT_TFNonLocalPlayerExclusive", "m_vecOrigin[2]", 30 * DEG),
            measure("DT_TFNonLocalPlayerExclusive", "m_angEyeAngles[1]", 90 * DEG),
            measure("DT_TFNonLocalPlayerExclusive", "m_angEyeAngles[0]", -15 * DEG),
            whole("DT_BaseEntity", "m_flSimulationTime", 77),
        ],
    ));
    assert_eq!(a.state.players.len(), 1);
    let p = &a.state.players[0];
    assert_eq!(p.entity, 4);
    assert!(p.in_pvs);
    assert_eq!(p.health, 125);
    assert_eq!(p.max_health, 150);
    assert_eq!(p.state, PlayerState::Death);
    assert_eq!(p.position, Vector { x: 10 * DEG, y: -20 * DEG, z: 30 * DEG });
    assert_eq!(p.view_angle, 90 * DEG);
    assert_eq!(p.pitch_angle, -15 * DEG);
    assert_eq!(p.simtime, 77);
}

#[test]
fn local_player_properties_count_too() {
    let mut a = analyser();
    a.handle_player_entity(&update(
        PLAYER,
        1,
        vec![
            prop(
                "DT_TFLocalPlayerExclusive",
                "m_vecOrigin",
                PropValue::VectorXY(VectorXY { x: 1, y: 2 }),
            ),
            measure("DT_TFLocalPlayerExclusive", "m_vecOrigin[2]", 3),
            measure("DT_TFLocalPlayerExclusive", "m_angEyeAngles[1]", 4),
            measure("DT_TFLocalPlayerExclusive", "m_angEyeAngles[0]", 5),
        ],
    ));
    let p = &a.state.players[0];
    assert_eq!(p.position, Vector { x: 1, y: 2, z: 3 });
    assert_eq!((p.view_angle, p.pitch_angle), (4, 5));
}

#[test]
fn later_properties_win_and_fields_persist() {
    let mut a = analyser();
    a.handle_entity(&update(
        PLAYER,
        4,
        vec![whole("DT_BasePlayer", "m_iHealth", 100), whole("DT_BasePlayer", "m_iHealth", 90)],
    ));
    assert_eq!(a.state.players[0].health, 90);
    let mut gone = update(PLAYER, 4, vec![measure("DT_TFNonLocalPlayerExclusive", "m_angEyeAngles[1]", 5)]);
    gone.in_pvs = false;
    a.handle_entity(&gone);
    assert_eq!(a.state.players.len(), 1);
    assert_eq!(a.state.players[0].health, 90);
    assert_eq!(a.state.players[0].view_angle, 5);
    assert!(!a.state.players[0].in_pvs);
}

#[test]
fn unknown_properties_are_ignored() {
    let mut a = analyser();
    a.handle_entity(&update(PLAYER, 4, vec![whole("DT_BasePlayer", "m_iHealth", 100)]));
    let before = a.state.players[0].duplicate();
    a.handle_entity(&update(
        PLAYER,
        4,
        vec![
            whole("DT_BasePlayer", "m_iAmmo", 3),
            whole("DT_NoSuchTable", "m_iHealth", 1),
            Prop { index: 5, identifier: 12345, value: PropValue::Integer(9) },
        ],
    ));
    assert_eq!(a.state.players[0], before);
}

#[test]
fn values_of_the_wrong_kind_read_as_zero() {
    let mut a = analyser();
    a.handle_entity(&update(PLAYER, 4, vec![whole("DT_BasePlayer", "m_iHealth", 100)]));
    a.handle_entity(&update(
        PLAYER,
        4,
        vec![
            measure("DT_BasePlayer", "m_iHealth", 55),
            whole("DT_TFNonLocalPlayerExclusive", "m_angEyeAngles[1]", 55),
        ],
    ));
    assert_eq!(a.state.players[0].health, 0);
    assert_eq!(a.state.players[0].view_angle, 0);
}

#[test]
fn integers_are_cut_to_the_width_of_the_field() {
    let mut a = analyser();
    a.handle_entity(&update(
        PLAYER,
        4,
        vec![whole("DT_BasePlayer", "m_iHealth", 65536 + 7), whole("DT_BasePlayer", "m_iMaxHealth", -1)],
    ));
    assert_eq!(a.state.players[0].health, 7);
    assert_eq!(a.state.players[0].max_health, 65535);
}

#[test]
fn entities_of_other_classes_change_nothing() {
    let mut a = analyser();
    a.handle_entity(&update(OTHER, 4, vec![whole("DT_BasePlayer", "m_iHealth", 100)]));
    a.handle_entity(&update(99, 4, vec![whole("DT_BasePlayer", "m_iHealth", 100)]));
    assert!(a.state.players.is_empty());
    assert!(a.state.buildings.is_empty());
    assert_eq!(a.state.world, None);
}

#[test]
fn without_data_tables_no_entity_is_known() {
    let mut a: CheatAnalyser<Algorithm> = CheatAnalyser::new(algorithms());
    a.handle_entity(&update(PLAYER, 4, vec![whole("DT_BasePlayer", "m_iHealth", 100)]));
    assert!(a.state.players.is_empty());
}

#[test]
fn resource_table_updates_known_players_only() {
    let mut a = analyser();
    a.handle_entity(&update(PLAYER, 1, vec![]));
    a.handle_entity(&update(PLAYER, 3, vec![]));
    a.handle_entity(&update(
        RESOURCE,
        0,
        vec![
            whole("m_iTeam", "001", 2),
            whole("m_iPlayerClass", "001", 5),
            whole("m_iMaxHealth", "001", 150),
            whole("m_iChargeLevel", "001", 300),
            whole("m_iPing", "001", 42),
            whole("m_iTeam", "003", 3),
            whole("m_iTeam", "002", 3),
            whole("m_iScore", "001", 9),
        ],
    ));
    assert_eq!(a.state.players.len(), 2);
    let p = &a.state.players[0];
    assert_eq!(p.team, Team::Red);
    assert_eq!(p.class, Class::Medic);
    assert_eq!(p.max_health, 150);
    assert_eq!(p.charge, 44);
    assert_eq!(p.ping, 42);
    assert_eq!(a.state.players[1].team, Team::Blue);
    assert_eq!(a.state.players[1].class, Class::Other);
}

#[test]
fn resource_properties_without_a_numbered_name_are_ignored() {
    let mut a = analyser();
    a.handle_entity(&update(PLAYER, 1, vec![]));
    let before = a.state.players[0].duplicate();
    a.handle_player_resource(&update(
        RESOURCE,
        0,
        vec![
            whole("DT_BasePlayer", "m_iHealth", 100),
            Prop { index: 0, identifier: 1, value: PropValue::Integer(2) },
        ],
    ));
    assert_eq!(a.state.players[0], before);
}

fn world_update(mins: PropValue, maxs: PropValue) -> EntityUpdate {
    update(
        WORLD,
        0,
        vec![prop("DT_WORLD", "m_WorldMins", mins), prop("DT_WORLD", "m_WorldMaxs", maxs)],
    )
}

#[test]
fn the_world_is_set_once() {
    let mut a = analyser();
    assert_eq!(a.state.world, None);
    let lo = Vector { x: -1, y: -2, z: -3 };
    let hi = Vector { x: 1, y: 2, z: 3 };
    a.handle_entity(&world_update(PropValue::Vector(lo), PropValue::Vector(hi)));
    assert_eq!(a.state.world, Some(World { boundary_min: lo, boundary_max: hi }));
    a.handle_entity(&world_update(PropValue::Vector(hi), PropValue::Vector(lo)));
    assert_eq!(a.state.world, Some(World { boundary_min: lo, boundary_max: hi }));
    a.handle_message(&Message::GameEvent(GameEvent::RoundStart), 5);
    assert_eq!(a.state.world, Some(World { boundary_min: lo, boundary_max: hi }));
}

#[test]
fn the_world_needs_both_corners_as_vectors() {
    let lo = Vector { x: -1, y: -2, z: -3 };
    let mut a = analyser();
    a.handle_world_entity(&update(
        WORLD,
        0,
        vec![prop("DT_WORLD", "m_WorldMins", PropValue::Vector(lo))],
    ));
    assert_eq!(a.state.world, None);
    a.handle_world_entity(&world_update(PropValue::Vector(lo), PropValue::Integer(1)));
    assert_eq!(a.state.world, None);
    // The first property of each name decides.
    a.handle_world_entity(&update(
        WORLD,
        0,
        vec![
            prop("DT_WORLD", "m_WorldMins", PropValue::Integer(0)),
            prop("DT_WORLD", "m_WorldMins", PropValue::Vector(lo)),
            prop("DT_WORLD", "m_WorldMaxs", PropValue::Vector(lo)),
        ],
    ));
    assert_eq!(a.state.world, None);
    a.handle_world_entity(&world_update(PropValue::Vector(lo), PropValue::Vector(lo)));
    assert_eq!(a.state.world, Some(World { boundary_min: lo, boundary_max: lo }));
}

fn shared_props() -> Vec<Prop> {
    vec![
        prop("DT_BaseEntity", "m_vecOrigin", PropValue::Vector(Vector { x: 1, y: 2, z: 3 })),
        whole("DT_BaseEntity", "m_iTeamNum", 3),
        measure("DT_BaseEntity", "m_angRotation", 45 * DEG),
        whole("DT_BaseObject", "m_bHasSapper", 1),
        whole("DT_BaseObject", "m_bBuilding", 0),
        whole("DT_BaseObject", "m_iUpgradeLevel", 2),
        whole("DT_BaseObject", "m_hBuilder", 17),
        whole("DT_BaseObject", "m_iMaxHealth", 180),
        whole("DT_BaseObject", "m_iHealth", 120),
    ]
}

fn shared_base() -> BuildingBase {
    BuildingBase {
        builder: 17,
        position: Vector { x: 1, y: 2, z: 3 },
        level: 2,
        max_health: 180,
        health: 120,
        building: false,
        sapped: true,
        team: Team::Blue,
        angle: 45 * DEG,
    }
}

#[test]
fn a_fresh_building_has_default_fields() {
    for class in [BuildingClass::Sentry, BuildingClass::Dispenser, BuildingClass::Teleporter] {
        let b = Building::new(9, class);
        assert_eq!(b.entity_id(), 9);
        assert_eq!(b.class(), class);
        assert_eq!(b.level(), 0);
        assert_eq!(b.position(), Vector { x: 0, y: 0, z: 0 });
        assert_eq!(b.builder(), 0);
        assert_eq!(b.angle(), 0);
        assert_eq!(b.max_health(), 0);
        assert_eq!(b.health(), 0);
        assert!(!b.sapped());
        assert_eq!(b.team(), Team::Other);
    }
}

#[test]
fn the_shared_fields_can_be_replaced_as_a_whole() {
    for class in [BuildingClass::Sentry, BuildingClass::Dispenser, BuildingClass::Teleporter] {
        let mut b = Building::new(9, class);
        b.set_base(shared_base());
        assert_eq!(b.base(), shared_base());
        assert_eq!(b.entity_id(), 9);
        assert_eq!(b.class(), class);
        assert_eq!(b.level(), 2);
        assert_eq!(b.health(), 120);
        assert_eq!(b.max_health(), 180);
        assert_eq!(b.builder(), 17);
        assert_eq!(b.team(), Team::Blue);
        assert_eq!(b.angle(), 45 * DEG);
        assert!(b.sapped());
        assert_eq!(b.position(), Vector { x: 1, y: 2, z: 3 });
    }
}

#[test]
fn sentry_updates_apply_shared_and_own_fields() {
    let mut a = analyser();
    let mut props = shared_props();
    props.extend(vec![
        whole("DT_BaseObject", "m_bMiniBuilding", 1),
        whole("DT_ObjectSentrygun", "m_bPlayerControlled", 0),
        whole("DT_ObjectSentrygun", "m_hAutoAimTarget", 12),
        whole("DT_ObjectSentrygun", "m_iAmmoShells", 100),
        whole("DT_ObjectSentrygun", "m_iAmmoRockets", 20),
    ]);
    a.handle_entity(&update(SENTRY, 40, props));
    assert_eq!(a.state.buildings.len(), 1);
    match &a.state.buildings[&40] {
        Building::Sentry(s) => {
            assert_eq!(s.entity, 40);
            assert!(s.is_mini);
            assert!(!s.player_controlled);
            assert_eq!(s.auto_aim_target, 12);
            assert_eq!(s.shells, 100);
            assert_eq!(s.rockets, 20);
        }
        other => panic!("not a sentry: {:?}", other),
    }
    assert_eq!(a.state.buildings[&40].base(), shared_base());
}

#[test]
fn a_sentry_takes_its_angle_from_its_own_property_last() {
    let mut a = analyser();
    a.handle_sentry_entity(&update(
        SENTRY,
        40,
        vec![
            measure("DT_TFNonLocalPlayerExclusive", "m_angEyeAngles[1]", 10 * DEG),
            measure("DT_BaseEntity", "m_angRotation", 45 * DEG),
        ],
    ));
    // The shared pass sets 45, the pass of the sentry's own fields then sets 10.
    assert_eq!(a.state.buildings[&40].angle(), 10 * DEG);
}

#[test]
fn teleporter_updates_apply_shared_and_own_fields() {
    let mut a = analyser();
    let mut props = shared_props();
    props.extend(vec![
        measure("DT_ObjectTeleporter", "m_flRechargeTime", 5 * DEG),
        measure("DT_ObjectTeleporter", "m_flCurrentRechargeDuration", 10 * DEG),
        whole("DT_ObjectTeleporter", "m_iTimesUsed", 3),
        whole("DT_ObjectTeleporter", "m_bMatchBuilding", 41),
        measure("DT_ObjectTeleporter", "m_flYawToExit", 90 * DEG),
        whole("DT_BaseObject", "m_iObjectMode", 0),
    ]);
    a.handle_entity(&update(TELEPORTER, 50, props));
    match &a.state.buildings[&50] {
        Building::Teleporter(t) => {
            assert_eq!(t.recharge_time, 5 * DEG);
            assert_eq!(t.recharge_duration, 10 * DEG);
            assert_eq!(t.times_used, 3);
            assert_eq!(t.other_end, 41);
            assert_eq!(t.yaw_to_exit, 90 * DEG);
            assert!(t.is_entrance);
        }
        other => panic!("not a teleporter: {:?}", other),
    }
    assert_eq!(a.state.buildings[&50].base(), shared_base());
    a.handle_teleporter_entity(&update(TELEPORTER, 50, vec![whole("DT_BaseObject", "m_iObjectMode", 1)]));
    match &a.state.buildings[&50] {
        Building::Teleporter(t) => assert!(!t.is_entrance),
        other => panic!("not a teleporter: {:?}", other),
    }
}

#[test]
fn dispenser_updates_apply_shared_and_own_fields() {
    let mut a = analyser();
    let mut props = shared_props();
    props.extend(vec![
        whole("DT_ObjectDispenser", "m_iAmmoMetal", 400),
        prop(
            "DT_ObjectDispenser",
            "healing_array",
            PropValue::Array(vec![Some(3), None, Some(65536 + 4)]),
        ),
    ]);
    a.handle_entity(&update(DISPENSER, 60, props));
    match &a.state.buildings[&60] {
        Building::Dispenser(d) => {
            assert_eq!(d.metal, 400);
            assert_eq!(d.healing, vec![3, 0, 4]);
        }
        other => panic!("not a dispenser: {:?}", other),
    }
    assert_eq!(a.state.buildings[&60].base(), shared_base());
    a.handle_dispenser_entity(&update(
        DISPENSER,
        60,
        vec![prop("DT_ObjectDispenser", "healing_array", PropValue::Integer(3))],
    ));
    match &a.state.buildings[&60] {
        Building::Dispenser(d) => assert!(d.healing.is_empty()),
        other => panic!("not a dispenser: {:?}", other),
    }
}

#[test]
fn a_building_never_changes_its_kind() {
    let mut a = analyser();
    a.handle_entity(&update(SENTRY, 40, vec![whole("DT_ObjectSentrygun", "m_iAmmoShells", 100)]));
    // An update for the same handle that is meant for a dispenser applies the
    // shared fields and leaves the sentry a sentry.
    a.handle_entity(&update(
        DISPENSER,
        40,
        vec![whole("DT_ObjectDispenser", "m_iAmmoMetal", 400), whole("DT_BaseObject", "m_iHealth", 9)],
    ));
    assert_eq!(a.state.buildings.len(), 1);
    assert_eq!(a.state.buildings[&40].class(), BuildingClass::Sentry);
    assert_eq!(a.state.buildings[&40].health(), 9);
    match &a.state.buildings[&40] {
        Building::Sentry(s) => assert_eq!(s.shells, 100),
        other => panic!("not a sentry: {:?}", other),
    }
    let kept = a.state.get_or_create_building(40, BuildingClass::Teleporter).class();
    assert_eq!(kept, BuildingClass::Sentry);
}

#[test]
fn buildings_are_created_on_demand() {
    let mut state = CheatAnalyserState::new();
    assert_eq!(state.get_or_create_building(8, BuildingClass::Dispenser).entity_id(), 8);
    assert_eq!(state.get_or_create_building(8, BuildingClass::Dispenser).class(), BuildingClass::Dispenser);
    assert_eq!(state.get_or_create_building(2, BuildingClass::Sentry).class(), BuildingClass::Sentry);
    assert_eq!(state.buildings.len(), 2);
    // The map goes by handle.
    let handles: Vec<u32> = state.buildings.keys().copied().collect();
    assert_eq!(handles, vec![2, 8]);
}

#[test]
fn deleting_removes_the_building() {
    let mut a = analyser();
    a.handle_entity(&update(SENTRY, 40, shared_props()));
    a.handle_entity(&update(DISPENSER, 41, shared_props()));
    a.handle_entity(&delete(SENTRY, 40));
    assert_eq!(a.state.buildings.len(), 1);
    assert!(a.state.buildings.contains_key(&41));
    // A delete carries no fields: one with properties creates nothing either.
    let mut with_props = delete(SENTRY, 40);
    with_props.props = shared_props();
    a.handle_entity(&with_props);
    assert_eq!(a.state.buildings.len(), 1);
}

#[test]
fn deleting_an_unknown_building_is_a_no_op() {
    let mut a = analyser();
    a.handle_entity(&update(PLAYER, 1, vec![whole("DT_BasePlayer", "m_iHealth", 100)]));
    a.handle_entity(&update(SENTRY, 40, shared_props()));
    let players: Vec<Player> = a.state.players.iter().map(|p| p.duplicate()).collect();
    let buildings = a.state.buildings.clone();
    for class in [SENTRY, DISPENSER, TELEPORTER] {
        a.handle_entity(&delete(class, 77));
        assert_eq!(a.state.players, players);
        assert_eq!(a.state.buildings, buildings);
    }
    a.state.remove_building(78);
    assert_eq!(a.state.buildings, buildings);
}

#[test]
fn deleting_twice_is_deleting_once() {
    let mut a = analyser();
    a.handle_entity(&update(SENTRY, 40, shared_props()));
    a.handle_entity(&update(TELEPORTER, 41, shared_props()));
    a.handle_entity(&delete(SENTRY, 40));
    let once = a.state.buildings.clone();
    a.handle_entity(&delete(SENTRY, 40));
    assert_eq!(a.state.buildings, once);
    a.handle_entity(&delete(DISPENSER, 40));
    assert_eq!(a.state.buildings, once);
}

#[test]
fn a_round_start_clears_every_building() {
    for event in [GameEvent::RoundStart, GameEvent::TeamPlayRoundStart] {
        let mut a = analyser();
        a.handle_entity(&update(PLAYER, 1, vec![whole("DT_BasePlayer", "m_iHealth", 100)]));
        let mut red = shared_props();
        red.push(whole("DT_BaseEntity", "m_iTeamNum", 2));
        a.handle_entity(&update(SENTRY, 40, red));
        a.handle_entity(&update(DISPENSER, 41, shared_props()));
        a.handle_entity(&update(TELEPORTER, 42, shared_props()));
        assert_eq!(a.state.buildings.len(), 3);
        a.handle_message(&Message::GameEvent(event), 10);
        assert!(a.state.buildings.is_empty());
        assert_eq!(a.state.players.len(), 1);
        // On an empty map it clears nothing and fails nothing.
        a.handle_message(&Message::GameEvent(event), 11);
        assert!(a.state.buildings.is_empty());
    }
}

#[test]
fn a_destroyed_object_is_removed() {
    let mut a = analyser();
    a.handle_entity(&update(SENTRY, 40, shared_props()));
    a.handle_entity(&update(DISPENSER, 41, shared_props()));
    a.handle_message(&Message::GameEvent(GameEvent::ObjectDestroyed { index: 40 }), 10);
    assert_eq!(a.state.buildings.len(), 1);
    assert!(a.state.buildings.contains_key(&41));
    a.handle_message(&Message::GameEvent(GameEvent::ObjectDestroyed { index: 40 }), 11);
    a.handle_message(&Message::GameEvent(GameEvent::ObjectDestroyed { index: 999 }), 11);
    assert_eq!(a.state.buildings.len(), 1);
    a.handle_message(&Message::GameEvent(GameEvent::Other), 12);
    a.handle_message(&Message::GameEvent(GameEvent::PlayerSpawn { user_id: 3 }), 12);
    assert_eq!(a.state.buildings.len(), 1);
}

#[test]
fn entity_messages_apply_their_updates_in_order() {
    let mut a = analyser();
    a.handle_message(
        &Message::PacketEntities(vec![
            update(PLAYER, 1, vec![whole("DT_BasePlayer", "m_iHealth", 100)]),
            update(SENTRY, 40, shared_props()),
            update(PLAYER, 1, vec![whole("DT_BasePlayer", "m_iHealth", 80)]),
            update(PLAYER, 2, vec![]),
            delete(SENTRY, 40),
        ]),
        3,
    );
    assert_eq!(a.state.players.len(), 2);
    assert_eq!(a.state.players[0].health, 80);
    assert!(a.state.buildings.is_empty());
}

#[test]
fn the_tick_is_taken_from_the_packet() {
    let mut a = analyser();
    assert_eq!((a.tick, a.state.tick), (0, 0));
    a.handle_packet_meta(77);
    assert_eq!((a.tick, a.state.tick), (77, 77));
}

fn user_entry(entity: u32, name: &str, user_id: u16, steam_id: &str) -> (String, Vec<u8>) {
    let info = tf_demo_parser::demo::data::UserInfo {
        entity_id: entity.into(),
        player_info: PlayerInfo {
            name: name.to_string(),
            user_id: user_id.into(),
            steam_id: steam_id.to_string(),
            ..Default::default()
        },
    };
    let entry = info.encode_to_string_table().unwrap();
    let extra = entry.extra_data.unwrap();
    let mut data = extra.data.clone();
    let bytes = data.read_bytes(extra.byte_len as usize).unwrap().into_owned();
    (entry.text.unwrap().into_owned(), bytes)
}

#[test]
fn a_user_entry_attaches_the_identity() {
    let (_, bytes) = user_entry(0, "alice", 7, "[U:1:22202]");
    let mut a = analyser();
    // The key counts players from zero, entity handles start at one.
    a.handle_string_entry("userinfo", 9, Some("4"), Some(&bytes));
    assert_eq!(a.state.players.len(), 1);
    let p = &a.state.players[0];
    assert_eq!(p.entity, 5);
    assert_eq!(
        p.info,
        Some(UserInfo {
            entity_id: 5,
            name: "alice".to_string(),
            user_id: 7,
            steam_id: "[U:1:22202]".to_string(),
        })
    );
}

#[test]
fn a_user_entry_without_a_key_goes_by_its_position() {
    let (_, bytes) = user_entry(0, "bob", 8, "[U:1:5]");
    let mut a = analyser();
    a.handle_string_entry("userinfo", 2, None, Some(&bytes));
    assert_eq!(a.state.players[0].entity, 3);
    assert_eq!(a.state.players[0].info.as_ref().unwrap().name, "bob");
}

#[test]
fn a_user_entry_replaces_the_identity_and_keeps_the_rest() {
    let mut a = analyser();
    a.handle_entity(&update(PLAYER, 5, vec![whole("DT_BasePlayer", "m_iHealth", 100)]));
    let (_, first) = user_entry(0, "alice", 7, "[U:1:22202]");
    a.handle_string_entry("userinfo", 0, Some("4"), Some(&first));
    let (_, second) = user_entry(0, "carol", 9, "[U:1:3]");
    a.handle_string_entry("userinfo", 0, Some("4"), Some(&second));
    assert_eq!(a.state.players.len(), 1);
    assert_eq!(a.state.players[0].health, 100);
    let info = a.state.players[0].info.as_ref().unwrap();
    assert_eq!((info.name.as_str(), info.user_id, info.steam_id.as_str()), ("carol", 9, "[U:1:3]"));
}

#[test]
fn entries_that_hold_no_identity_change_nothing() {
    let (_, bytes) = user_entry(0, "alice", 7, "[U:1:22202]");
    let mut a = analyser();
    // Another table.
    a.handle_string_entry("modelprecache", 0, Some("4"), Some(&bytes));
    // No payload.
    a.handle_string_entry("userinfo", 0, Some("4"), None);
    // A payload that is too short.
    a.handle_string_entry("userinfo", 0, Some("4"), Some(&bytes[..10].to_vec()));
    // A key that is no number.
    a.handle_string_entry("userinfo", 0, Some("four"), Some(&bytes));
    // A record without an identity text.
    let (_, anonymous) = user_entry(0, "nobody", 7, "");
    a.handle_string_entry("userinfo", 0, Some("4"), Some(&anonymous));
    // The one key that cannot be counted past.
    a.handle_string_entry("userinfo", 0, Some("4294967295"), Some(&bytes));
    a.handle_string_entry("userinfo", 0, Some("+4294967295"), Some(&bytes));
    assert!(a.state.players.is_empty());
    a.state.apply_string_entry("userinfo", 0, Some("4"), Some(&bytes));
    assert_eq!(a.state.players.len(), 1);
}
