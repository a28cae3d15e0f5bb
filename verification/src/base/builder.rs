//! The rules by which entity updates change the world state.

use vstd::prelude::*;
use crate::base::props::{
    first_with_identifier, find_prop, float_of, integer_of, send_prop_known_names,
    send_prop_names, vector_of, vector_xy_of, BuildingProps, DispenserProps, PlayerProps,
    PropTables, SentryProps, TeleporterProps, WorldProps,
};
use crate::base::records::{EntityUpdate, Prop, PropValue, UpdateType};
use crate::base::state::{
    find_player, slot_of, with_building, with_player, Building, BuildingBase, BuildingClass,
    BuildingView, CheatAnalyserState, Class, DispenserView, Player, PlayerState, PlayerView,
    Sentry, StateView, Team, Teleporter, World,
};
use crate::util::helpers::Vector;
use crate::util::text::{decimal_u32, parse_u32, same_text};

verus! {

/// What kind of entity a server class describes, as far as the state builder
/// tells them apart.
#[derive(Debug, Clone, Copy, PartialEq, Eq, Structural)]
pub enum EntityClass {
    Player,
    PlayerResource,
    World,
    Sentry,
    Dispenser,
    Teleporter,
    Other,
}

/// The kind of entity that a server class of the given name describes.
pub open spec fn class_of_name(name: Seq<char>) -> EntityClass {
    if name == "CTFPlayer"@ {
        EntityClass::Player
    } else if name == "CTFPlayerResource"@ {
        EntityClass::PlayerResource
    } else if name == "CWorld"@ {
        EntityClass::World
    } else if name == "CObjectSentrygun"@ {
        EntityClass::Sentry
    } else if name == "CObjectDispenser"@ {
        EntityClass::Dispenser
    } else if name == "CObjectTeleporter"@ {
        EntityClass::Teleporter
    } else {
        EntityClass::Other
    }
}

/// Tells the kind of entity that a server class describes from its name.
pub fn classify(name: &str) -> (class: EntityClass)
    ensures
        class == class_of_name(name@),
{
    if same_text(name, "CTFPlayer") {
        EntityClass::Player
    } else if same_text(name, "CTFPlayerResource") {
        EntityClass::PlayerResource
    } else if same_text(name, "CWorld") {
        EntityClass::World
    } else if same_text(name, "CObjectSentrygun") {
        EntityClass::Sentry
    } else if same_text(name, "CObjectDispenser") {
        EntityClass::Dispenser
    } else if same_text(name, "CObjectTeleporter") {
        EntityClass::Teleporter
    } else {
        EntityClass::Other
    }
}

/// The kind of the server class with the given number; a number beyond the
/// known classes is of no known kind.
pub open spec fn class_of(kinds: Seq<EntityClass>, server_class: u16) -> EntityClass {
    if server_class < kinds.len() {
        kinds[server_class as int]
    } else {
        EntityClass::Other
    }
}

/// A player after one property update. Properties that the player record
/// does not model leave it as it is; a value of an unexpected kind reads as
/// zero.
pub open spec fn player_prop_step(p: PlayerView, prop: Prop) -> PlayerView {
    let ids = PlayerProps::table();
    let id = prop.identifier;
    if id == ids.health {
        PlayerView { health: integer_of(prop.value) as u16, ..p }
    } else if id == ids.max_health {
        PlayerView { max_health: integer_of(prop.value) as u16, ..p }
    } else if id == ids.life_state {
        PlayerView { state: PlayerState::of(integer_of(prop.value)), ..p }
    } else if id == ids.local_origin || id == ids.non_local_origin {
        PlayerView {
            position: Vector {
                x: vector_xy_of(prop.value).x,
                y: vector_xy_of(prop.value).y,
                z: p.position.z,
            },
            ..p
        }
    } else if id == ids.local_origin_z || id == ids.non_local_origin_z {
        PlayerView {
            position: Vector { x: p.position.x, y: p.position.y, z: float_of(prop.value) },
            ..p
        }
    } else if id == ids.local_eye_angles || id == ids.non_local_eye_angles {
        PlayerView { view_angle: float_of(prop.value), ..p }
    } else if id == ids.local_pitch_angles || id == ids.non_local_pitch_angles {
        PlayerView { pitch_angle: float_of(prop.value), ..p }
    } else if id == ids.simtime {
        PlayerView { simtime: integer_of(prop.value) as u16, ..p }
    } else {
        p
    }
}

/// A player after the first `n` of a list of property updates, in order.
pub open spec fn player_props_applied(p: PlayerView, props: Seq<Prop>, n: int) -> PlayerView
    decreases n,
{
    if n <= 0 {
        p
    } else {
        player_prop_step(player_props_applied(p, props, n - 1), props[n - 1])
    }
}

/// The state after an update of a player entity: the player is created if it
/// was unknown, takes the update's visibility, and then each property in
/// order.
pub open spec fn player_entity_applied(s: StateView, e: EntityUpdate) -> StateView {
    let players = with_player(s.players, e.entity_index);
    let i = slot_of(s.players, e.entity_index);
    let seen = PlayerView { in_pvs: e.in_pvs, ..players[i] };
    StateView {
        players: players.update(i, player_props_applied(seen, e.props@, e.props@.len() as int)),
        ..s
    }
}

/// A player after the resource table reported `value` in its column `table`.
pub open spec fn resource_field_set(p: PlayerView, table: Seq<char>, value: PropValue)
    -> PlayerView {
    if table == "m_iTeam"@ {
        PlayerView { team: Team::of(integer_of(value)), ..p }
    } else if table == "m_iMaxHealth"@ {
        PlayerView { max_health: integer_of(value) as u16, ..p }
    } else if table == "m_iPlayerClass"@ {
        PlayerView { class: Class::of(integer_of(value)), ..p }
    } else if table == "m_iChargeLevel"@ {
        PlayerView { charge: integer_of(value) as u8, ..p }
    } else if table == "m_iPing"@ {
        PlayerView { ping: integer_of(value) as u16, ..p }
    } else {
        p
    }
}

/// The players after one property of the resource table. The property's name
/// is the entity handle of the player it speaks of, its table the column; a
/// property without known names, with a name that is no number, or for a
/// player that is not known changes nothing.
pub open spec fn resource_prop_step(players: Seq<PlayerView>, prop: Prop) -> Seq<PlayerView> {
    match send_prop_known_names(prop.identifier) {
        Some((table, name)) => match decimal_u32(name) {
            Some(entity) => match find_player(players, entity) {
                Some(i) => players.update(i, resource_field_set(players[i], table, prop.value)),
                None => players,
            },
            None => players,
        },
        None => players,
    }
}

/// The players after the first `n` properties of a resource table update.
pub open spec fn resource_props_applied(players: Seq<PlayerView>, props: Seq<Prop>, n: int)
    -> Seq<PlayerView>
    decreases n,
{
    if n <= 0 {
        players
    } else {
        resource_prop_step(resource_props_applied(players, props, n - 1), props[n - 1])
    }
}

/// The state after an update of the player resource table.
pub open spec fn player_resource_applied(s: StateView, e: EntityUpdate) -> StateView {
    StateView {
        players: resource_props_applied(s.players, e.props@, e.props@.len() as int),
        ..s
    }
}

/// The extent that a world update announces: both corners, each the first
/// property of its name, and both of them vectors.
pub open spec fn announced_world(props: Seq<Prop>) -> Option<World> {
    let ids = WorldProps::table();
    match (
        first_with_identifier(props, ids.mins, props.len() as int),
        first_with_identifier(props, ids.maxs, props.len() as int),
    ) {
        (Some(i), Some(j)) => match (props[i].value, props[j].value) {
            (PropValue::Vector(boundary_min), PropValue::Vector(boundary_max)) => Some(
                World { boundary_min, boundary_max },
            ),
            _ => None,
        },
        _ => None,
    }
}

/// The state after an update of the world entity: the extent is taken from
/// the first update that announces one, and kept from then on.
pub open spec fn world_entity_applied(s: StateView, e: EntityUpdate) -> StateView {
    if s.world is None {
        StateView { world: announced_world(e.props@), ..s }
    } else {
        s
    }
}

/// The shared fields of a building after one property update.
pub open spec fn base_prop_step(b: BuildingBase, prop: Prop) -> BuildingBase {
    let ids = BuildingProps::table();
    let id = prop.identifier;
    if id == ids.origin {
        BuildingBase { position: vector_of(prop.value), ..b }
    } else if id == ids.team {
        BuildingBase { team: Team::of(integer_of(prop.value)), ..b }
    } else if id == ids.angle {
        BuildingBase { angle: float_of(prop.value), ..b }
    } else if id == ids.sapped {
        BuildingBase { sapped: integer_of(prop.value) > 0, ..b }
    } else if id == ids.building {
        BuildingBase { building: integer_of(prop.value) > 0, ..b }
    } else if id == ids.level {
        BuildingBase { level: integer_of(prop.value) as u8, ..b }
    } else if id == ids.builder {
        BuildingBase { builder: integer_of(prop.value) as u16, ..b }
    } else if id == ids.max_health {
        BuildingBase { max_health: integer_of(prop.value) as u16, ..b }
    } else if id == ids.health {
        BuildingBase { health: integer_of(prop.value) as u16, ..b }
    } else {
        b
    }
}

/// The shared fields of a building after the first `n` property updates.
pub open spec fn base_props_applied(b: BuildingBase, props: Seq<Prop>, n: int) -> BuildingBase
    decreases n,
{
    if n <= 0 {
        b
    } else {
        base_prop_step(base_props_applied(b, props, n - 1), props[n - 1])
    }
}

/// A sentry gun after one property update of its own.
pub open spec fn sentry_prop_step(s: Sentry, prop: Prop) -> Sentry {
    let ids = SentryProps::table();
    let id = prop.identifier;
    if id == ids.angle {
        Sentry { angle: float_of(prop.value), ..s }
    } else if id == ids.mini {
        Sentry { is_mini: integer_of(prop.value) > 0, ..s }
    } else if id == ids.controlled {
        Sentry { player_controlled: integer_of(prop.value) > 0, ..s }
    } else if id == ids.target {
        Sentry { auto_aim_target: integer_of(prop.value) as u16, ..s }
    } else if id == ids.shells {
        Sentry { shells: integer_of(prop.value) as u16, ..s }
    } else if id == ids.rockets {
        Sentry { rockets: integer_of(prop.value) as u16, ..s }
    } else {
        s
    }
}

/// A sentry gun after the first `n` property updates of its own.
pub open spec fn sentry_props_applied(s: Sentry, props: Seq<Prop>, n: int) -> Sentry
    decreases n,
{
    if n <= 0 {
        s
    } else {
        sentry_prop_step(sentry_props_applied(s, props, n - 1), props[n - 1])
    }
}

/// A teleporter after one property update of its own.
pub open spec fn teleporter_prop_step(t: Teleporter, prop: Prop) -> Teleporter {
    let ids = TeleporterProps::table();
    let id = prop.identifier;
    if id == ids.recharge_time {
        Teleporter { recharge_time: float_of(prop.value), ..t }
    } else if id == ids.recharge_duration {
        Teleporter { recharge_duration: float_of(prop.value), ..t }
    } else if id == ids.times_used {
        Teleporter { times_used: integer_of(prop.value) as u16, ..t }
    } else if id == ids.other_end {
        Teleporter { other_end: integer_of(prop.value) as u32, ..t }
    } else if id == ids.yaw_to_exit {
        Teleporter { yaw_to_exit: float_of(prop.value), ..t }
    } else if id == ids.is_entrance {
        Teleporter { is_entrance: integer_of(prop.value) == 0, ..t }
    } else {
        t
    }
}

/// A teleporter after the first `n` property updates of its own.
pub open spec fn teleporter_props_applied(t: Teleporter, props: Seq<Prop>, n: int) -> Teleporter
    decreases n,
{
    if n <= 0 {
        t
    } else {
        teleporter_prop_step(teleporter_props_applied(t, props, n - 1), props[n - 1])
    }
}

/// The user that an item of a healing list names: the item's integer cut to
/// 16 bits, zero for an item that is no integer.
pub open spec fn healed_user(item: Option<i64>) -> u16 {
    match item {
        Some(v) => v as u16,
        None => 0,
    }
}

/// The users that a healing list names; a value that is no array names none.
pub open spec fn healing_of(value: PropValue) -> Seq<u16> {
    match value {
        PropValue::Array(items) => Seq::new(items@.len(), |i: int| healed_user(items@[i])),
        _ => Seq::empty(),
    }
}

/// A dispenser after one property update of its own.
pub open spec fn dispenser_prop_step(d: DispenserView, prop: Prop) -> DispenserView {
    let ids = DispenserProps::table();
    let id = prop.identifier;
    if id == ids.ammo {
        DispenserView { metal: integer_of(prop.value) as u16, ..d }
    } else if id == ids.healing {
        DispenserView { healing: healing_of(prop.value), ..d }
    } else {
        d
    }
}

/// A dispenser after the first `n` property updates of its own.
pub open spec fn dispenser_props_applied(d: DispenserView, props: Seq<Prop>, n: int)
    -> DispenserView
    decreases n,
{
    if n <= 0 {
        d
    } else {
        dispenser_prop_step(dispenser_props_applied(d, props, n - 1), props[n - 1])
    }
}

/// A building after the properties of its own kind, for an update that is
/// meant for kind `class`. A building of another kind is left as it is.
pub open spec fn kind_props_applied(b: BuildingView, class: BuildingClass, props: Seq<Prop>)
    -> BuildingView {
    match (b, class) {
        (BuildingView::Sentry(s), BuildingClass::Sentry) => BuildingView::Sentry(
            sentry_props_applied(s, props, props.len() as int),
        ),
        (BuildingView::Dispenser(d), BuildingClass::Dispenser) => BuildingView::Dispenser(
            dispenser_props_applied(d, props, props.len() as int),
        ),
        (BuildingView::Teleporter(t), BuildingClass::Teleporter) => BuildingView::Teleporter(
            teleporter_props_applied(t, props, props.len() as int),
        ),
        _ => b,
    }
}

/// A building after an update: first the fields that all kinds share, then
/// those of its own kind.
pub open spec fn building_updated(b: BuildingView, class: BuildingClass, props: Seq<Prop>)
    -> BuildingView {
    kind_props_applied(
        b.with_base(base_props_applied(b.base(), props, props.len() as int)),
        class,
        props,
    )
}

/// The state after an update of a building entity of kind `class`. A delete
/// removes the building, and does nothing if it is not known; any other
/// update creates the building if it is unknown and applies the properties.
pub open spec fn building_entity_applied(s: StateView, class: BuildingClass, e: EntityUpdate)
    -> StateView {
    if e.update_type == UpdateType::Delete {
        StateView { buildings: s.buildings.remove(e.entity_index), ..s }
    } else {
        let known = with_building(s.buildings, e.entity_index, class);
        StateView {
            buildings: known.insert(
                e.entity_index,
                building_updated(known[e.entity_index], class, e.props@),
            ),
            ..s
        }
    }
}

/// The state after an entity update, by the kind of the entity's class.
/// Entities of other classes leave the state as it is.
pub open spec fn entity_applied(s: StateView, kinds: Seq<EntityClass>, e: EntityUpdate)
    -> StateView {
    match class_of(kinds, e.server_class) {
        EntityClass::Player => player_entity_applied(s, e),
        EntityClass::PlayerResource => player_resource_applied(s, e),
        EntityClass::World => world_entity_applied(s, e),
        EntityClass::Sentry => building_entity_applied(s, BuildingClass::Sentry, e),
        EntityClass::Dispenser => building_entity_applied(s, BuildingClass::Dispenser, e),
        EntityClass::Teleporter => building_entity_applied(s, BuildingClass::Teleporter, e),
        EntityClass::Other => s,
    }
}

/// The state after the first `n` entity updates of a message.
pub open spec fn entities_applied(
    s: StateView,
    kinds: Seq<EntityClass>,
    entities: Seq<EntityUpdate>,
    n: int,
) -> StateView
    decreases n,
{
    if n <= 0 {
        s
    } else {
        entity_applied(entities_applied(s, kinds, entities, n - 1), kinds, entities[n - 1])
    }
}

/// Deleting a building that is not known changes nothing.
pub proof fn lemma_delete_unknown_building(s: StateView, class: BuildingClass, e: EntityUpdate)
    requires
        e.update_type == UpdateType::Delete,
        !s.buildings.contains_key(e.entity_index),
    ensures
        building_entity_applied(s, class, e) == s,
{
    assert(s.buildings.remove(e.entity_index) =~= s.buildings);
}

/// Deleting a building twice is the same as deleting it once, whatever kind
/// of building the two deletes are meant for.
pub proof fn lemma_delete_building_twice(
    s: StateView,
    first: BuildingClass,
    second: BuildingClass,
    e: EntityUpdate,
)
    requires
        e.update_type == UpdateType::Delete,
    ensures
        building_entity_applied(building_entity_applied(s, first, e), second, e)
            == building_entity_applied(s, first, e),
{
    let once = building_entity_applied(s, first, e);
    assert(!once.buildings.contains_key(e.entity_index));
    lemma_delete_unknown_building(once, second, e);
}

/// A delete touches nothing but the building that it names: players, world,
/// tick and every other building stay as they are.
pub proof fn lemma_delete_building_frame(s: StateView, class: BuildingClass, e: EntityUpdate)
    requires
        e.update_type == UpdateType::Delete,
    ensures
        building_entity_applied(s, class, e).players == s.players,
        building_entity_applied(s, class, e).world == s.world,
        building_entity_applied(s, class, e).tick == s.tick,
        !building_entity_applied(s, class, e).buildings.contains_key(e.entity_index),
        forall|other: u32|
            other != e.entity_index ==> (#[trigger] building_entity_applied(
                s,
                class,
                e,
            ).buildings.contains_key(other) <==> s.buildings.contains_key(other)),
        forall|other: u32|
            other != e.entity_index && s.buildings.contains_key(other)
                ==> #[trigger] building_entity_applied(s, class, e).buildings[other]
                == s.buildings[other],
{
}

/// An update never changes the kind of a building that is already known.
pub proof fn lemma_building_keeps_kind(s: StateView, class: BuildingClass, e: EntityUpdate)
    requires
        e.update_type != UpdateType::Delete,
        s.buildings.contains_key(e.entity_index),
    ensures
        building_entity_applied(s, class, e).buildings.contains_key(e.entity_index),
        building_entity_applied(s, class, e).buildings[e.entity_index].class()
            == s.buildings[e.entity_index].class(),
{
}

fn apply_player_props(player: &mut Player, ids: &PlayerProps, props: &Vec<Prop>)
    requires
        *ids == PlayerProps::table(),
    ensures
        final(player)@ == player_props_applied(old(player)@, props@, props@.len() as int),
{
    let mut i: usize = 0;
    while i < props.len()
        invariant
            i <= props.len(),
            *ids == PlayerProps::table(),
            player@ == player_props_applied(old(player)@, props@, i as int),
        decreases props.len() - i,
    {
        let prop = &props[i];
        let id: u64 = prop.identifier;
        if id == ids.health {
            player.health = prop.value.as_integer() as u16;
        } else if id == ids.max_health {
            player.max_health = prop.value.as_integer() as u16;
        } else if id == ids.life_state {
            player.state = PlayerState::new(prop.value.as_integer());
        } else if id == ids.local_origin || id == ids.non_local_origin {
            let pos_xy = prop.value.as_vector_xy();
            player.position.x = pos_xy.x;
            player.position.y = pos_xy.y;
        } else if id == ids.local_origin_z || id == ids.non_local_origin_z {
            player.position.z = prop.value.as_float();
        } else if id == ids.local_eye_angles || id == ids.non_local_eye_angles {
            player.view_angle = prop.value.as_float();
        } else if id == ids.local_pitch_angles || id == ids.non_local_pitch_angles {
            player.pitch_angle = prop.value.as_float();
        } else if id == ids.simtime {
            player.simtime = prop.value.as_integer() as u16;
        }
        i += 1;
    }
}

fn set_resource_field(player: &mut Player, table: &str, value: &PropValue)
    ensures
        final(player)@ == resource_field_set(old(player)@, table@, *value),
{
    if same_text(table, "m_iTeam") {
        player.team = Team::new(value.as_integer());
    } else if same_text(table, "m_iMaxHealth") {
        player.max_health = value.as_integer() as u16;
    } else if same_text(table, "m_iPlayerClass") {
        player.class = Class::new(value.as_integer());
    } else if same_text(table, "m_iChargeLevel") {
        player.charge = value.as_integer() as u8;
    } else if same_text(table, "m_iPing") {
        player.ping = value.as_integer() as u16;
    }
}

fn apply_base_props(base: &mut BuildingBase, ids: &BuildingProps, props: &Vec<Prop>)
    requires
        *ids == BuildingProps::table(),
    ensures
        *final(base) == base_props_applied(*old(base), props@, props@.len() as int),
{
    let mut i: usize = 0;
    while i < props.len()
        invariant
            i <= props.len(),
            *ids == BuildingProps::table(),
            *base == base_props_applied(*old(base), props@, i as int),
        decreases props.len() - i,
    {
        let prop = &props[i];
        let id: u64 = prop.identifier;
        if id == ids.origin {
            base.position = prop.value.as_vector();
        } else if id == ids.team {
            base.team = Team::new(prop.value.as_integer());
        } else if id == ids.angle {
            base.angle = prop.value.as_float();
        } else if id == ids.sapped {
            base.sapped = prop.value.as_integer() > 0;
        } else if id == ids.building {
            base.building = prop.value.as_integer() > 0;
        } else if id == ids.level {
            base.level = prop.value.as_integer() as u8;
        } else if id == ids.builder {
            base.builder = prop.value.as_integer() as u16;
        } else if id == ids.max_health {
            base.max_health = prop.value.as_integer() as u16;
        } else if id == ids.health {
            base.health = prop.value.as_integer() as u16;
        }
        i += 1;
    }
}

fn apply_sentry_props(sentry: &mut Sentry, ids: &SentryProps, props: &Vec<Prop>)
    requires
        *ids == SentryProps::table(),
    ensures
        *final(sentry) == sentry_props_applied(*old(sentry), props@, props@.len() as int),
{
    let mut i: usize = 0;
    while i < props.len()
        invariant
            i <= props.len(),
            *ids == SentryProps::table(),
            *sentry == sentry_props_applied(*old(sentry), props@, i as int),
        decreases props.len() - i,
    {
        let prop = &props[i];
        let id: u64 = prop.identifier;
        if id == ids.angle {
            sentry.angle = prop.value.as_float();
        } else if id == ids.mini {
            sentry.is_mini = prop.value.as_integer() > 0;
        } else if id == ids.controlled {
            sentry.player_controlled = prop.value.as_integer() > 0;
        } else if id == ids.target {
            sentry.auto_aim_target = prop.value.as_integer() as u16;
        } else if id == ids.shells {
            sentry.shells = prop.value.as_integer() as u16;
        } else if id == ids.rockets {
            sentry.rockets = prop.value.as_integer() as u16;
        }
        i += 1;
    }
}

fn apply_teleporter_props(teleporter: &mut Teleporter, ids: &TeleporterProps, props: &Vec<Prop>)
    requires
        *ids == TeleporterProps::table(),
    ensures
        *final(teleporter) == teleporter_props_applied(
            *old(teleporter),
            props@,
            props@.len() as int,
        ),
{
    let mut i: usize = 0;
    while i < props.len()
        invariant
            i <= props.len(),
            *ids == TeleporterProps::table(),
            *teleporter == teleporter_props_applied(*old(teleporter), props@, i as int),
        decreases props.len() - i,
    {
        let prop = &props[i];
        let id: u64 = prop.identifier;
        if id == ids.recharge_time {
            teleporter.recharge_time = prop.value.as_float();
        } else if id == ids.recharge_duration {
            teleporter.recharge_duration = prop.value.as_float();
        } else if id == ids.times_used {
            teleporter.times_used = prop.value.as_integer() as u16;
        } else if id == ids.other_end {
            teleporter.other_end = prop.value.as_integer() as u32;
        } else if id == ids.yaw_to_exit {
            teleporter.yaw_to_exit = prop.value.as_float();
        } else if id == ids.is_entrance {
            teleporter.is_entrance = prop.value.as_integer() == 0;
        }
        i += 1;
    }
}

/// Lists the users that a healing list names.
fn read_healing(value: &PropValue) -> (healing: Vec<u16>)
    ensures
        healing@ == healing_of(*value),
{
    let mut healing: Vec<u16> = Vec::new();
    match value {
        PropValue::Array(items) => {
            let mut i: usize = 0;
            while i < items.len()
                invariant
                    i <= items.len(),
                    healing@.len() == i,
                    forall|j: int| 0 <= j < i ==> healing@[j] == healed_user(items@[j]),
                decreases items.len() - i,
            {
                let user: u16 = match items[i] {
                    Some(v) => v as u16,
                    None => 0,
                };
                healing.push(user);
                i += 1;
            }
            assert(healing@ =~= healing_of(*value));
        },
        _ => {
            assert(healing@ =~= healing_of(*value));
        },
    }
    healing
}

fn apply_dispenser_props(
    dispenser: &mut crate::base::state::Dispenser,
    ids: &DispenserProps,
    props: &Vec<Prop>,
)
    requires
        *ids == DispenserProps::table(),
    ensures
        final(dispenser)@ == dispenser_props_applied(old(dispenser)@, props@, props@.len() as int),
{
    let mut i: usize = 0;
    while i < props.len()
        invariant
            i <= props.len(),
            *ids == DispenserProps::table(),
            dispenser@ == dispenser_props_applied(old(dispenser)@, props@, i as int),
        decreases props.len() - i,
    {
        let prop = &props[i];
        let id: u64 = prop.identifier;
        if id == ids.ammo {
            dispenser.metal = prop.value.as_integer() as u16;
        } else if id == ids.healing {
            dispenser.healing = read_healing(&prop.value);
        }
        i += 1;
    }
}

fn update_building(
    building: &mut Building,
    tables: &PropTables,
    class: BuildingClass,
    props: &Vec<Prop>,
)
    ensures
        final(building)@ == building_updated(old(building)@, class, props@),
{
    let mut base = building.base();
    apply_base_props(&mut base, tables.building(), props);
    building.set_base(base);
    match building {
        Building::Sentry(sentry) => {
            if let BuildingClass::Sentry = class {
                apply_sentry_props(sentry, tables.sentry(), props);
            }
        },
        Building::Dispenser(dispenser) => {
            if let BuildingClass::Dispenser = class {
                apply_dispenser_props(dispenser, tables.dispenser(), props);
            }
        },
        Building::Teleporter(teleporter) => {
            if let BuildingClass::Teleporter = class {
                apply_teleporter_props(teleporter, tables.teleporter(), props);
            }
        },
    }
}

impl CheatAnalyserState {
    /// Applies an update of a player entity.
    pub fn apply_player_entity(&mut self, tables: &PropTables, entity: &EntityUpdate)
        ensures
            final(self)@ == player_entity_applied(old(self)@, *entity),
    {
        let index: usize = self.ensure_player(entity.entity_index);
        let ghost mid = self@;
        self.players[index].in_pvs = entity.in_pvs;
        let ghost seen = self.players@[index as int]@;
        apply_player_props(&mut self.players[index], tables.player(), &entity.props);
        assert(self@.players =~= mid.players.update(
            index as int,
            player_props_applied(seen, entity.props@, entity.props@.len() as int),
        ));
        assert(self@.buildings =~= mid.buildings);
    }

    /// Applies an update of the player resource table, which reports team,
    /// class, maximal health, charge and ping of the players by entity
    /// handle.
    pub fn apply_player_resource(&mut self, entity: &EntityUpdate)
        ensures
            final(self)@ == player_resource_applied(old(self)@, *entity),
    {
        let mut i: usize = 0;
        while i < entity.props.len()
            invariant
                i <= entity.props.len(),
                self@ == (StateView {
                    players: resource_props_applied(old(self)@.players, entity.props@, i as int),
                    ..old(self)@
                }),
            decreases entity.props.len() - i,
        {
            let prop = &entity.props[i];
            let ghost before = self@;
            if let Some((table_name, prop_name)) = send_prop_names(prop.identifier) {
                if let Some(player_id) = parse_u32(prop_name.as_str()) {
                    if let Some(index) = self.player_index(player_id) {
                        set_resource_field(
                            &mut self.players[index],
                            table_name.as_str(),
                            &prop.value,
                        );
                        assert(self@.players =~= before.players.update(
                            index as int,
                            resource_field_set(
                                before.players[index as int],
                                table_name@,
                                prop.value,
                            ),
                        ));
                        assert(self@.buildings =~= before.buildings);
                    }
                }
            }
            i += 1;
        }
    }

    /// Applies an update of the world entity.
    pub fn apply_world_entity(&mut self, tables: &PropTables, entity: &EntityUpdate)
        ensures
            final(self)@ == world_entity_applied(old(self)@, *entity),
    {
        if self.world.is_some() {
            return ;
        }
        let ids = tables.world();
        let mins = find_prop(&entity.props, ids.mins);
        let maxs = find_prop(&entity.props, ids.maxs);
        if let (Some(i), Some(j)) = (mins, maxs) {
            if let (PropValue::Vector(boundary_min), PropValue::Vector(boundary_max)) = (
                &entity.props[i].value,
                &entity.props[j].value,
            ) {
                self.world = Some(
                    World { boundary_min: *boundary_min, boundary_max: *boundary_max },
                );
            }
        }
    }

    /// Applies an update of a building entity of kind `class`.
    pub fn apply_building_entity(
        &mut self,
        tables: &PropTables,
        class: BuildingClass,
        entity: &EntityUpdate,
    )
        ensures
            final(self)@ == building_entity_applied(old(self)@, class, *entity),
    {
        if let UpdateType::Delete = entity.update_type {
            self.remove_building(entity.entity_index);
            return ;
        }
        let ghost known = with_building(old(self)@.buildings, entity.entity_index, class);
        let taken = self.buildings.remove(&entity.entity_index);
        let mut building = match taken {
            Some(building) => building,
            None => Building::new(entity.entity_index, class),
        };
        assert(building@ == known[entity.entity_index]);
        update_building(&mut building, tables, class, &entity.props);
        self.buildings.insert(entity.entity_index, building);
        assert(self@.buildings =~= known.insert(
            entity.entity_index,
            building_updated(known[entity.entity_index], class, entity.props@),
        ));
        assert(self@.players =~= old(self)@.players);
    }

    /// Applies an entity update, by the kind of the entity's class.
    pub fn apply_entity(
        &mut self,
        tables: &PropTables,
        kinds: &Vec<EntityClass>,
        entity: &EntityUpdate,
    )
        ensures
            final(self)@ == entity_applied(old(self)@, kinds@, *entity),
    {
        let class_index: usize = entity.server_class as usize;
        let kind = if class_index < kinds.len() {
            kinds[class_index]
        } else {
            EntityClass::Other
        };
        match kind {
            EntityClass::Player => self.apply_player_entity(tables, entity),
            EntityClass::PlayerResource => self.apply_player_resource(entity),
            EntityClass::World => self.apply_world_entity(tables, entity),
            EntityClass::Sentry => self.apply_building_entity(
                tables,
                BuildingClass::Sentry,
                entity,
            ),
            EntityClass::Dispenser => self.apply_building_entity(
                tables,
                BuildingClass::Dispenser,
                entity,
            ),
            EntityClass::Teleporter => self.apply_building_entity(
                tables,
                BuildingClass::Teleporter,
                entity,
            ),
            EntityClass::Other => {},
        }
    }
}

} // verus!
