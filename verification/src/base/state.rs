//! The world state: players, buildings and the extent of the map.

use vstd::prelude::*;
use std::collections::BTreeMap;
use crate::util::helpers::Vector;

verus! {

/// Whether a player is alive, and how far along it is if not.
#[derive(Debug, Clone, Copy, PartialEq, Eq, Structural)]
pub enum PlayerState {
    Alive,
    Dying,
    Death,
    Respawnable,
}

impl PlayerState {
    /// The life state that the number stands for; unknown numbers read as
    /// `Alive`.
    pub open spec fn of(number: i64) -> PlayerState {
        if number == 1 {
            PlayerState::Dying
        } else if number == 2 {
            PlayerState::Death
        } else if number == 3 {
            PlayerState::Respawnable
        } else {
            PlayerState::Alive
        }
    }

    /// Reads a life state from its number.
    pub fn new(number: i64) -> (state: PlayerState)
        ensures
            state == PlayerState::of(number),
    {
        match number {
            1 => PlayerState::Dying,
            2 => PlayerState::Death,
            3 => PlayerState::Respawnable,
            _ => PlayerState::Alive,
        }
    }
}

/// The side a player or a building belongs to.
#[derive(Debug, Clone, Copy, PartialEq, Eq, Structural)]
pub enum Team {
    Other,
    Spectator,
    Red,
    Blue,
}

impl Team {
    /// The team that the number stands for; unknown numbers read as `Other`.
    pub open spec fn of(number: i64) -> Team {
        if number == 1 {
            Team::Spectator
        } else if number == 2 {
            Team::Red
        } else if number == 3 {
            Team::Blue
        } else {
            Team::Other
        }
    }

    /// Reads a team from its number.
    pub fn new(number: i64) -> (team: Team)
        ensures
            team == Team::of(number),
    {
        match number {
            1 => Team::Spectator,
            2 => Team::Red,
            3 => Team::Blue,
            _ => Team::Other,
        }
    }
}

/// The class a player plays.
#[derive(Debug, Clone, Copy, PartialEq, Eq, Structural)]
pub enum Class {
    Other,
    Scout,
    Sniper,
    Soldier,
    Demoman,
    Medic,
    Heavy,
    Pyro,
    Spy,
    Engineer,
}

impl Class {
    /// The class that the number stands for; unknown numbers read as `Other`.
    pub open spec fn of(number: i64) -> Class {
        if number == 1 {
            Class::Scout
        } else if number == 2 {
            Class::Sniper
        } else if number == 3 {
            Class::Soldier
        } else if number == 4 {
            Class::Demoman
        } else if number == 5 {
            Class::Medic
        } else if number == 6 {
            Class::Heavy
        } else if number == 7 {
            Class::Pyro
        } else if number == 8 {
            Class::Spy
        } else if number == 9 {
            Class::Engineer
        } else {
            Class::Other
        }
    }

    /// Reads a class from its number.
    pub fn new(number: i64) -> (class: Class)
        ensures
            class == Class::of(number),
    {
        match number {
            1 => Class::Scout,
            2 => Class::Sniper,
            3 => Class::Soldier,
            4 => Class::Demoman,
            5 => Class::Medic,
            6 => Class::Heavy,
            7 => Class::Pyro,
            8 => Class::Spy,
            9 => Class::Engineer,
            _ => Class::Other,
        }
    }
}

/// Who a player is: the record that the server keeps per connected user.
#[derive(Debug, Clone, PartialEq, Eq)]
pub struct UserInfo {
    pub entity_id: u32,
    pub name: String,
    pub user_id: u16,
    pub steam_id: String,
}

/// The mathematical content of a `UserInfo`.
pub struct UserInfoView {
    pub entity_id: u32,
    pub name: Seq<char>,
    pub user_id: u16,
    pub steam_id: Seq<char>,
}

impl View for UserInfo {
    type V = UserInfoView;

    open spec fn view(&self) -> UserInfoView {
        UserInfoView {
            entity_id: self.entity_id,
            name: self.name@,
            user_id: self.user_id,
            steam_id: self.steam_id@,
        }
    }
}

impl UserInfo {
    /// A copy of the record.
    pub fn duplicate(&self) -> (copy: UserInfo)
        ensures
            copy@ == self@,
    {
        UserInfo {
            entity_id: self.entity_id,
            name: self.name.clone(),
            user_id: self.user_id,
            steam_id: self.steam_id.clone(),
        }
    }
}

/// The view of an optional identity.
pub open spec fn info_view(info: Option<UserInfo>) -> Option<UserInfoView> {
    match info {
        Some(i) => Some(i@),
        None => None,
    }
}

/// A player as the recording last described it.
#[derive(Debug, Clone, PartialEq, Eq)]
pub struct Player {
    pub entity: u32,
    pub position: Vector,
    pub health: u16,
    pub max_health: u16,
    pub class: Class,
    pub team: Team,
    pub view_angle: i64,
    pub pitch_angle: i64,
    pub state: PlayerState,
    pub info: Option<UserInfo>,
    pub charge: u8,
    pub simtime: u16,
    pub ping: u16,
    pub in_pvs: bool,
    pub shot_fired: u32,
}

/// The mathematical content of a `Player`.
pub struct PlayerView {
    pub entity: u32,
    pub position: Vector,
    pub health: u16,
    pub max_health: u16,
    pub class: Class,
    pub team: Team,
    pub view_angle: i64,
    pub pitch_angle: i64,
    pub state: PlayerState,
    pub info: Option<UserInfoView>,
    pub charge: u8,
    pub simtime: u16,
    pub ping: u16,
    pub in_pvs: bool,
    pub shot_fired: u32,
}

impl View for Player {
    type V = PlayerView;

    open spec fn view(&self) -> PlayerView {
        PlayerView {
            entity: self.entity,
            position: self.position,
            health: self.health,
            max_health: self.max_health,
            class: self.class,
            team: self.team,
            view_angle: self.view_angle,
            pitch_angle: self.pitch_angle,
            state: self.state,
            info: info_view(self.info),
            charge: self.charge,
            simtime: self.simtime,
            ping: self.ping,
            in_pvs: self.in_pvs,
            shot_fired: self.shot_fired,
        }
    }
}

impl PlayerView {
    /// A player of which nothing but its entity handle is known.
    pub open spec fn fresh(entity: u32) -> PlayerView {
        PlayerView {
            entity,
            position: Vector::zero(),
            health: 0,
            max_health: 0,
            class: Class::Other,
            team: Team::Other,
            view_angle: 0,
            pitch_angle: 0,
            state: PlayerState::Alive,
            info: None,
            charge: 0,
            simtime: 0,
            ping: 0,
            in_pvs: false,
            shot_fired: 0,
        }
    }
}

impl Player {
    /// A copy of the player.
    pub fn duplicate(&self) -> (copy: Player)
        ensures
            copy@ == self@,
    {
        Player {
            entity: self.entity,
            position: self.position,
            health: self.health,
            max_health: self.max_health,
            class: self.class,
            team: self.team,
            view_angle: self.view_angle,
            pitch_angle: self.pitch_angle,
            state: self.state,
            info: match &self.info {
                Some(info) => Some(info.duplicate()),
                None => None,
            },
            charge: self.charge,
            simtime: self.simtime,
            ping: self.ping,
            in_pvs: self.in_pvs,
            shot_fired: self.shot_fired,
        }
    }

    /// A player of which nothing but its entity handle is known.
    pub fn new(entity: u32) -> (player: Player)
        ensures
            player@ == PlayerView::fresh(entity),
    {
        Player {
            entity,
            position: Vector { x: 0, y: 0, z: 0 },
            health: 0,
            max_health: 0,
            class: Class::Other,
            team: Team::Other,
            view_angle: 0,
            pitch_angle: 0,
            state: PlayerState::Alive,
            info: None,
            charge: 0,
            simtime: 0,
            ping: 0,
            in_pvs: false,
            shot_fired: 0,
        }
    }
}

/// The kinds of building.
#[derive(Debug, Clone, Copy, PartialEq, Eq, Structural)]
pub enum BuildingClass {
    Sentry,
    Dispenser,
    Teleporter,
}

/// What every kind of building has.
#[derive(Debug, Clone, Copy, PartialEq, Eq, Structural)]
pub struct BuildingBase {
    pub builder: u16,
    pub position: Vector,
    pub level: u8,
    pub max_health: u16,
    pub health: u16,
    pub building: bool,
    pub sapped: bool,
    pub team: Team,
    pub angle: i64,
}

impl BuildingBase {
    /// The shared fields of a building that was just created.
    pub open spec fn fresh() -> BuildingBase {
        BuildingBase {
            builder: 0,
            position: Vector::zero(),
            level: 0,
            max_health: 0,
            health: 0,
            building: false,
            sapped: false,
            team: Team::Other,
            angle: 0,
        }
    }
}

/// A sentry gun.
#[derive(Debug, Clone, Copy, PartialEq, Eq, Structural)]
pub struct Sentry {
    pub entity: u32,
    pub builder: u16,
    pub position: Vector,
    pub level: u8,
    pub max_health: u16,
    pub health: u16,
    pub building: bool,
    pub sapped: bool,
    pub team: Team,
    pub angle: i64,
    pub player_controlled: bool,
    pub auto_aim_target: u16,
    pub shells: u16,
    pub rockets: u16,
    pub is_mini: bool,
}

/// A dispenser.
#[derive(Debug, Clone, PartialEq, Eq)]
pub struct Dispenser {
    pub entity: u32,
    pub builder: u16,
    pub position: Vector,
    pub level: u8,
    pub max_health: u16,
    pub health: u16,
    pub building: bool,
    pub sapped: bool,
    pub team: Team,
    pub angle: i64,
    pub healing: Vec<u16>,
    pub metal: u16,
}

/// The mathematical content of a `Dispenser`.
pub struct DispenserView {
    pub entity: u32,
    pub builder: u16,
    pub position: Vector,
    pub level: u8,
    pub max_health: u16,
    pub health: u16,
    pub building: bool,
    pub sapped: bool,
    pub team: Team,
    pub angle: i64,
    pub healing: Seq<u16>,
    pub metal: u16,
}

impl View for Dispenser {
    type V = DispenserView;

    open spec fn view(&self) -> DispenserView {
        DispenserView {
            entity: self.entity,
            builder: self.builder,
            position: self.position,
            level: self.level,
            max_health: self.max_health,
            health: self.health,
            building: self.building,
            sapped: self.sapped,
            team: self.team,
            angle: self.angle,
            healing: self.healing@,
            metal: self.metal,
        }
    }
}

/// One end of a teleporter.
#[derive(Debug, Clone, Copy, PartialEq, Eq, Structural)]
pub struct Teleporter {
    pub entity: u32,
    pub builder: u16,
    pub position: Vector,
    pub level: u8,
    pub max_health: u16,
    pub health: u16,
    pub building: bool,
    pub sapped: bool,
    pub team: Team,
    pub angle: i64,
    pub is_entrance: bool,
    pub other_end: u32,
    pub recharge_time: i64,
    pub recharge_duration: i64,
    pub times_used: u16,
    pub yaw_to_exit: i64,
}

/// A building of one of the three kinds.
#[derive(Debug, Clone, PartialEq, Eq)]
pub enum Building {
    Sentry(Sentry),
    Dispenser(Dispenser),
    Teleporter(Teleporter),
}

/// The mathematical content of a `Building`.
pub enum BuildingView {
    Sentry(Sentry),
    Dispenser(DispenserView),
    Teleporter(Teleporter),
}

impl View for Building {
    type V = BuildingView;

    open spec fn view(&self) -> BuildingView {
        match *self {
            Building::Sentry(s) => BuildingView::Sentry(s),
            Building::Dispenser(d) => BuildingView::Dispenser(d@),
            Building::Teleporter(t) => BuildingView::Teleporter(t),
        }
    }
}

impl BuildingView {
    /// A building of the given kind of which nothing but its entity handle is
    /// known.
    pub open spec fn fresh(entity: u32, class: BuildingClass) -> BuildingView {
        BuildingView::Sentry(
            Sentry {
                entity,
                builder: 0,
                position: Vector::zero(),
                level: 0,
                max_health: 0,
                health: 0,
                building: false,
                sapped: false,
                team: Team::Other,
                angle: 0,
                player_controlled: false,
                auto_aim_target: 0,
                shells: 0,
                rockets: 0,
                is_mini: false,
            },
        ).with_class(entity, class)
    }

    /// A fresh building of kind `class` for `Dispenser` and `Teleporter`;
    /// `self` for `Sentry`.
    pub open spec fn with_class(self, entity: u32, class: BuildingClass) -> BuildingView {
        match class {
            BuildingClass::Sentry => self,
            BuildingClass::Dispenser => BuildingView::Dispenser(
                DispenserView {
                    entity,
                    builder: 0,
                    position: Vector::zero(),
                    level: 0,
                    max_health: 0,
                    health: 0,
                    building: false,
                    sapped: false,
                    team: Team::Other,
                    angle: 0,
                    healing: Seq::empty(),
                    metal: 0,
                },
            ),
            BuildingClass::Teleporter => BuildingView::Teleporter(
                Teleporter {
                    entity,
                    builder: 0,
                    position: Vector::zero(),
                    level: 0,
                    max_health: 0,
                    health: 0,
                    building: false,
                    sapped: false,
                    team: Team::Other,
                    angle: 0,
                    is_entrance: false,
                    other_end: 0,
                    recharge_time: 0,
                    recharge_duration: 0,
                    times_used: 0,
                    yaw_to_exit: 0,
                },
            ),
        }
    }

    /// The entity handle of the building.
    pub open spec fn entity_id(self) -> u32 {
        match self {
            BuildingView::Sentry(s) => s.entity,
            BuildingView::Dispenser(d) => d.entity,
            BuildingView::Teleporter(t) => t.entity,
        }
    }

    /// The kind of the building.
    pub open spec fn class(self) -> BuildingClass {
        match self {
            BuildingView::Sentry(_) => BuildingClass::Sentry,
            BuildingView::Dispenser(_) => BuildingClass::Dispenser,
            BuildingView::Teleporter(_) => BuildingClass::Teleporter,
        }
    }

    /// The fields that the building shares with the other kinds.
    pub open spec fn base(self) -> BuildingBase {
        match self {
            BuildingView::Sentry(s) => BuildingBase {
                builder: s.builder,
                position: s.position,
                level: s.level,
                max_health: s.max_health,
                health: s.health,
                building: s.building,
                sapped: s.sapped,
                team: s.team,
                angle: s.angle,
            },
            BuildingView::Dispenser(d) => BuildingBase {
                builder: d.builder,
                position: d.position,
                level: d.level,
                max_health: d.max_health,
                health: d.health,
                building: d.building,
                sapped: d.sapped,
                team: d.team,
                angle: d.angle,
            },
            BuildingView::Teleporter(t) => BuildingBase {
                builder: t.builder,
                position: t.position,
                level: t.level,
                max_health: t.max_health,
                health: t.health,
                building: t.building,
                sapped: t.sapped,
                team: t.team,
                angle: t.angle,
            },
        }
    }

    /// The building with its shared fields replaced.
    pub open spec fn with_base(self, base: BuildingBase) -> BuildingView {
        match self {
            BuildingView::Sentry(s) => BuildingView::Sentry(
                Sentry {
                    builder: base.builder,
                    position: base.position,
                    level: base.level,
                    max_health: base.max_health,
                    health: base.health,
                    building: base.building,
                    sapped: base.sapped,
                    team: base.team,
                    angle: base.angle,
                    ..s
                },
            ),
            BuildingView::Dispenser(d) => BuildingView::Dispenser(
                DispenserView {
                    builder: base.builder,
                    position: base.position,
                    level: base.level,
                    max_health: base.max_health,
                    health: base.health,
                    building: base.building,
                    sapped: base.sapped,
                    team: base.team,
                    angle: base.angle,
                    ..d
                },
            ),
            BuildingView::Teleporter(t) => BuildingView::Teleporter(
                Teleporter {
                    builder: base.builder,
                    position: base.position,
                    level: base.level,
                    max_health: base.max_health,
                    health: base.health,
                    building: base.building,
                    sapped: base.sapped,
                    team: base.team,
                    angle: base.angle,
                    ..t
                },
            ),
        }
    }
}

impl Building {
    /// A building of the given kind, with every field but the entity handle at
    /// its default.
    pub fn new(entity_id: u32, class: BuildingClass) -> (building: Building)
        ensures
            building@ == BuildingView::fresh(entity_id, class),
    {
        let origin = Vector { x: 0, y: 0, z: 0 };
        match class {
            BuildingClass::Sentry => Building::Sentry(
                Sentry {
                    entity: entity_id,
                    builder: 0,
                    position: origin,
                    level: 0,
                    max_health: 0,
                    health: 0,
                    building: false,
                    sapped: false,
                    team: Team::Other,
                    angle: 0,
                    player_controlled: false,
                    auto_aim_target: 0,
                    shells: 0,
                    rockets: 0,
                    is_mini: false,
                },
            ),
            BuildingClass::Dispenser => Building::Dispenser(
                Dispenser {
                    entity: entity_id,
                    builder: 0,
                    position: origin,
                    level: 0,
                    max_health: 0,
                    health: 0,
                    building: false,
                    sapped: false,
                    team: Team::Other,
                    angle: 0,
                    healing: Vec::new(),
                    metal: 0,
                },
            ),
            BuildingClass::Teleporter => Building::Teleporter(
                Teleporter {
                    entity: entity_id,
                    builder: 0,
                    position: origin,
                    level: 0,
                    max_health: 0,
                    health: 0,
                    building: false,
                    sapped: false,
                    team: Team::Other,
                    angle: 0,
                    is_entrance: false,
                    other_end: 0,
                    recharge_time: 0,
                    recharge_duration: 0,
                    times_used: 0,
                    yaw_to_exit: 0,
                },
            ),
        }
    }

    /// The entity handle of the building.
    pub fn entity_id(&self) -> (entity: u32)
        ensures
            entity == self@.entity_id(),
    {
        match self {
            Building::Sentry(s) => s.entity,
            Building::Dispenser(d) => d.entity,
            Building::Teleporter(t) => t.entity,
        }
    }

    /// The upgrade level.
    pub fn level(&self) -> (level: u8)
        ensures
            level == self@.base().level,
    {
        match self {
            Building::Sentry(s) => s.level,
            Building::Dispenser(d) => d.level,
            Building::Teleporter(t) => t.level,
        }
    }

    /// Where the building stands.
    pub fn position(&self) -> (position: Vector)
        ensures
            position == self@.base().position,
    {
        match self {
            Building::Sentry(s) => s.position,
            Building::Dispenser(d) => d.position,
            Building::Teleporter(t) => t.position,
        }
    }

    /// The user who built it.
    pub fn builder(&self) -> (builder: u16)
        ensures
            builder == self@.base().builder,
    {
        match self {
            Building::Sentry(s) => s.builder,
            Building::Dispenser(d) => d.builder,
            Building::Teleporter(t) => t.builder,
        }
    }

    /// The direction the building faces.
    pub fn angle(&self) -> (angle: i64)
        ensures
            angle == self@.base().angle,
    {
        match self {
            Building::Sentry(s) => s.angle,
            Building::Dispenser(d) => d.angle,
            Building::Teleporter(t) => t.angle,
        }
    }

    /// The health of the undamaged building.
    pub fn max_health(&self) -> (max_health: u16)
        ensures
            max_health == self@.base().max_health,
    {
        match self {
            Building::Sentry(s) => s.max_health,
            Building::Dispenser(d) => d.max_health,
            Building::Teleporter(t) => t.max_health,
        }
    }

    /// The health that is left.
    pub fn health(&self) -> (health: u16)
        ensures
            health == self@.base().health,
    {
        match self {
            Building::Sentry(s) => s.health,
            Building::Dispenser(d) => d.health,
            Building::Teleporter(t) => t.health,
        }
    }

    /// Whether a sapper is attached.
    pub fn sapped(&self) -> (sapped: bool)
        ensures
            sapped == self@.base().sapped,
    {
        match self {
            Building::Sentry(s) => s.sapped,
            Building::Dispenser(d) => d.sapped,
            Building::Teleporter(t) => t.sapped,
        }
    }

    /// The side that owns the building.
    pub fn team(&self) -> (team: Team)
        ensures
            team == self@.base().team,
    {
        match self {
            Building::Sentry(s) => s.team,
            Building::Dispenser(d) => d.team,
            Building::Teleporter(t) => t.team,
        }
    }

    /// The kind of the building.
    pub fn class(&self) -> (class: BuildingClass)
        ensures
            class == self@.class(),
    {
        match self {
            Building::Sentry(_) => BuildingClass::Sentry,
            Building::Dispenser(_) => BuildingClass::Dispenser,
            Building::Teleporter(_) => BuildingClass::Teleporter,
        }
    }

    /// The fields that the building shares with the other kinds.
    pub fn base(&self) -> (base: BuildingBase)
        ensures
            base == self@.base(),
    {
        match self {
            Building::Sentry(s) => BuildingBase {
                builder: s.builder,
                position: s.position,
                level: s.level,
                max_health: s.max_health,
                health: s.health,
                building: s.building,
                sapped: s.sapped,
                team: s.team,
                angle: s.angle,
            },
            Building::Dispenser(d) => BuildingBase {
                builder: d.builder,
                position: d.position,
                level: d.level,
                max_health: d.max_health,
                health: d.health,
                building: d.building,
                sapped: d.sapped,
                team: d.team,
                angle: d.angle,
            },
            Building::Teleporter(t) => BuildingBase {
                builder: t.builder,
                position: t.position,
                level: t.level,
                max_health: t.max_health,
                health: t.health,
                building: t.building,
                sapped: t.sapped,
                team: t.team,
                angle: t.angle,
            },
        }
    }

    /// Replaces the fields that the building shares with the other kinds.
    pub fn set_base(&mut self, base: BuildingBase)
        ensures
            final(self)@ == old(self)@.with_base(base),
    {
        match self {
            Building::Sentry(s) => {
                s.builder = base.builder;
                s.position = base.position;
                s.level = base.level;
                s.max_health = base.max_health;
                s.health = base.health;
                s.building = base.building;
                s.sapped = base.sapped;
                s.team = base.team;
                s.angle = base.angle;
            },
            Building::Dispenser(d) => {
                d.builder = base.builder;
                d.position = base.position;
                d.level = base.level;
                d.max_health = base.max_health;
                d.health = base.health;
                d.building = base.building;
                d.sapped = base.sapped;
                d.team = base.team;
                d.angle = base.angle;
            },
            Building::Teleporter(t) => {
                t.builder = base.builder;
                t.position = base.position;
                t.level = base.level;
                t.max_health = base.max_health;
                t.health = base.health;
                t.building = base.building;
                t.sapped = base.sapped;
                t.team = base.team;
                t.angle = base.angle;
            },
        }
    }
}

/// The extent of the map.
#[derive(Debug, Clone, Copy, PartialEq, Eq, Structural)]
pub struct World {
    pub boundary_min: Vector,
    pub boundary_max: Vector,
}

/// One kill, as the death event reports it.
#[derive(Debug, Clone, PartialEq, Eq)]
pub struct Kill {
    pub attacker_id: u16,
    pub assister_id: u16,
    pub victim_id: u16,
    pub weapon: String,
    pub tick: u32,
}

/// The reconstructed state of the match at one moment.
///
/// Players stand in the order in which they were first seen; buildings are
/// keyed by entity handle.
#[derive(Debug, PartialEq, Eq)]
pub struct CheatAnalyserState {
    pub players: Vec<Player>,
    pub buildings: BTreeMap<u32, Building>,
    pub world: Option<World>,
    pub tick: u32,
}

/// The mathematical content of a `CheatAnalyserState`.
pub struct StateView {
    pub players: Seq<PlayerView>,
    pub buildings: Map<u32, BuildingView>,
    pub world: Option<World>,
    pub tick: u32,
}

/// The views of a list of players.
pub open spec fn players_view(players: Seq<Player>) -> Seq<PlayerView> {
    Seq::new(players.len(), |i: int| players[i]@)
}

/// The views of a map of buildings.
pub open spec fn buildings_view(buildings: Map<u32, Building>) -> Map<u32, BuildingView> {
    Map::new(|k: u32| buildings.contains_key(k), |k: u32| buildings[k]@)
}

impl View for CheatAnalyserState {
    type V = StateView;

    open spec fn view(&self) -> StateView {
        StateView {
            players: players_view(self.players@),
            buildings: buildings_view(self.buildings@),
            world: self.world,
            tick: self.tick,
        }
    }
}

/// The position of the first of the first `n` players that has the given
/// entity handle.
pub open spec fn player_slot(players: Seq<PlayerView>, entity: u32, n: int) -> Option<int>
    decreases n,
{
    if n <= 0 {
        None
    } else {
        match player_slot(players, entity, n - 1) {
            Some(i) => Some(i),
            None => if players[n - 1].entity == entity {
                Some(n - 1)
            } else {
                None
            },
        }
    }
}

/// The position of the first player that has the given entity handle.
pub open spec fn find_player(players: Seq<PlayerView>, entity: u32) -> Option<int> {
    player_slot(players, entity, players.len() as int)
}

/// The players with one for `entity` among them: the list itself if it has
/// one, else the list with a fresh player at its end.
pub open spec fn with_player(players: Seq<PlayerView>, entity: u32) -> Seq<PlayerView> {
    if find_player(players, entity) is Some {
        players
    } else {
        players.push(PlayerView::fresh(entity))
    }
}

/// Where the player for `entity` stands in `with_player(players, entity)`.
pub open spec fn slot_of(players: Seq<PlayerView>, entity: u32) -> int {
    match find_player(players, entity) {
        Some(i) => i,
        None => players.len() as int,
    }
}

/// The buildings with one for `entity` among them: the map itself if it has
/// one, of whatever kind, else the map with a fresh building of kind `class`.
pub open spec fn with_building(
    buildings: Map<u32, BuildingView>,
    entity: u32,
    class: BuildingClass,
) -> Map<u32, BuildingView> {
    if buildings.contains_key(entity) {
        buildings
    } else {
        buildings.insert(entity, BuildingView::fresh(entity, class))
    }
}

/// The slot that is found holds a player with the entity handle, and where
/// none is found, no player has it.
pub proof fn lemma_player_slot_bounds(players: Seq<PlayerView>, entity: u32, n: int)
    requires
        0 <= n <= players.len(),
    ensures
        match player_slot(players, entity, n) {
            Some(i) => 0 <= i < n && players[i].entity == entity,
            None => forall|j: int| 0 <= j < n ==> players[j].entity != entity,
        },
    decreases n,
{
    if n > 0 {
        lemma_player_slot_bounds(players, entity, n - 1);
    }
}

/// Once a slot is found among the first players, it stays the slot however
/// many more players are looked at.
pub proof fn lemma_player_slot_stays(players: Seq<PlayerView>, entity: u32, n: int, m: int)
    requires
        0 <= n <= m,
        player_slot(players, entity, n) is Some,
    ensures
        player_slot(players, entity, m) == player_slot(players, entity, n),
    decreases m - n,
{
    if n < m {
        lemma_player_slot_stays(players, entity, n, m - 1);
    }
}

impl CheatAnalyserState {
    /// A state in which nothing has been seen yet.
    pub fn new() -> (state: CheatAnalyserState)
        ensures
            state@ == (StateView {
                players: Seq::empty(),
                buildings: Map::empty(),
                world: None,
                tick: 0,
            }),
    {
        let state = CheatAnalyserState {
            players: Vec::new(),
            buildings: BTreeMap::new(),
            world: None,
            tick: 0,
        };
        assert(state@.players =~= Seq::empty());
        assert(state@.buildings =~= Map::empty());
        state
    }

    /// Finds the first player with the given entity handle.
    pub fn player_index(&self, entity_id: u32) -> (found: Option<usize>)
        ensures
            match found {
                Some(i) => find_player(self@.players, entity_id) == Some(i as int) && i
                    < self.players@.len(),
                None => find_player(self@.players, entity_id) is None,
            },
    {
        let mut i: usize = 0;
        while i < self.players.len()
            invariant
                i <= self.players.len(),
                player_slot(self@.players, entity_id, i as int) is None,
            decreases self.players.len() - i,
        {
            if self.players[i].entity == entity_id {
                proof {
                    lemma_player_slot_stays(
                        self@.players,
                        entity_id,
                        i as int + 1,
                        self.players@.len() as int,
                    );
                }
                return Some(i);
            }
            i += 1;
        }
        None
    }

    /// The position of the player with the given entity handle, after adding
    /// a fresh one at the end of the list if there was none.
    pub fn ensure_player(&mut self, entity_id: u32) -> (index: usize)
        ensures
            final(self)@ == (StateView {
                players: with_player(old(self)@.players, entity_id),
                ..old(self)@
            }),
            index == slot_of(old(self)@.players, entity_id),
            index < final(self).players@.len(),
            final(self)@.players[index as int].entity == entity_id,
    {
        match self.player_index(entity_id) {
            Some(index) => {
                proof {
                    lemma_player_slot_bounds(
                        self@.players,
                        entity_id,
                        self@.players.len() as int,
                    );
                }
                index
            },
            None => {
                let index: usize = self.players.len();
                self.players.push(Player::new(entity_id));
                assert(self@.players =~= old(self)@.players.push(PlayerView::fresh(entity_id)));
                assert(self@.buildings =~= old(self)@.buildings);
                index
            },
        }
    }

    /// The player with the given entity handle, created with default fields
    /// at the end of the list if there was none.
    pub fn get_or_create_player(&mut self, entity_id: u32) -> (player: &mut Player)
        ensures
            player@ == with_player(old(self)@.players, entity_id)[slot_of(
                old(self)@.players,
                entity_id,
            )],
            final(self)@ == (StateView {
                players: with_player(old(self)@.players, entity_id).update(
                    slot_of(old(self)@.players, entity_id),
                    final(player)@,
                ),
                ..old(self)@
            }),
    {
        let index: usize = self.ensure_player(entity_id);
        let ghost mid = self@;
        let player = &mut self.players[index];
        proof {
            assert(players_view(after_borrow(self.players)@) =~= mid.players.update(
                index as int,
                final(player)@,
            ));
        }
        player
    }

    /// The building with the given entity handle, created with default
    /// fields and of kind `class` if there was none. A building that is
    /// already known keeps its kind, whatever `class` says.
    pub fn get_or_create_building(&mut self, entity_id: u32, class: BuildingClass) -> (building:
        &Building)
        ensures
            final(self)@ == (StateView {
                buildings: with_building(old(self)@.buildings, entity_id, class),
                ..old(self)@
            }),
            final(self).buildings@.contains_key(entity_id),
            building@ == final(self)@.buildings[entity_id],
    {
        if !self.buildings.contains_key(&entity_id) {
            self.buildings.insert(entity_id, Building::new(entity_id, class));
            assert(self@.buildings =~= old(self)@.buildings.insert(
                entity_id,
                BuildingView::fresh(entity_id, class),
            ));
        }
        assert(self@.players =~= old(self)@.players);
        match self.buildings.get(&entity_id) {
            Some(building) => building,
            None => unreached(),
        }
    }

    /// Forgets the building with the given entity handle, if there is one.
    pub fn remove_building(&mut self, entity_id: u32)
        ensures
            final(self)@ == (StateView {
                buildings: old(self)@.buildings.remove(entity_id),
                ..old(self)@
            }),
    {
        self.buildings.remove(&entity_id);
        assert(self@.buildings =~= old(self)@.buildings.remove(entity_id));
        assert(self@.players =~= old(self)@.players);
    }

    /// Forgets every building.
    pub fn clear_buildings(&mut self)
        ensures
            final(self)@ == (StateView { buildings: Map::empty(), ..old(self)@ }),
    {
        self.buildings.clear();
        assert(self@.buildings =~= Map::empty());
        assert(self@.players =~= old(self)@.players);
    }
}

} // verus!
