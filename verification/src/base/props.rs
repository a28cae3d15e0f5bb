//! Property updates: how properties are identified and how their values are
//! read.

use vstd::prelude::*;
use crate::base::records::{Prop, PropValue};
use crate::util::helpers::{Vector, VectorXY};

verus! {

/// The identifier that the decoder gives to the property `name` of the data
/// table `table`.
pub uninterp spec fn send_prop_hash(table: Seq<char>, name: Seq<char>) -> u64;

/// The table and property names that the decoder knows for an identifier, if
/// it knows any.
pub uninterp spec fn send_prop_known_names(identifier: u64) -> Option<(Seq<char>, Seq<char>)>;

/// Calls `SendPropIdentifier::new` of the decoder, which hashes the two names
/// into the 64-bit identifier that decoded properties carry.
///
/// The contract only names the result: equal names give equal identifiers.
#[verifier::external_body]
pub(crate) fn send_prop_identifier(table: &str, name: &str) -> (identifier: u64)
    ensures
        identifier == send_prop_hash(table@, name@),
{
    tf_demo_parser::demo::sendprop::SendPropIdentifier::new(table, name).into()
}

/// Calls `SendPropIdentifier::names` of the decoder, which looks the
/// identifier up among the properties known when the decoder was built.
///
/// The contract only names the result: equal identifiers give equal names.
#[verifier::external_body]
pub(crate) fn send_prop_names(identifier: u64) -> (names: Option<(String, String)>)
    ensures
        match names {
            Some((table, name)) => send_prop_known_names(identifier) == Some((table@, name@)),
            None => send_prop_known_names(identifier) is None,
        },
{
    match tf_demo_parser::demo::sendprop::SendPropIdentifier::from(identifier).names() {
        Some((table, name)) => Some((table.as_str().to_owned(), name.as_str().to_owned())),
        None => None,
    }
}

/// The properties of a player entity that the state builder reads.
#[derive(Debug, Clone, Copy, PartialEq, Eq, Structural)]
pub struct PlayerProps {
    pub health: u64,
    pub max_health: u64,
    pub life_state: u64,
    pub local_origin: u64,
    pub non_local_origin: u64,
    pub local_origin_z: u64,
    pub non_local_origin_z: u64,
    pub local_eye_angles: u64,
    pub non_local_eye_angles: u64,
    pub local_pitch_angles: u64,
    pub non_local_pitch_angles: u64,
    pub simtime: u64,
}

impl PlayerProps {
    /// The identifier of each property, by the names under which the game
    /// publishes it.
    pub open spec fn table() -> PlayerProps {
        PlayerProps {
            health: send_prop_hash("DT_BasePlayer"@, "m_iHealth"@),
            max_health: send_prop_hash("DT_BasePlayer"@, "m_iMaxHealth"@),
            life_state: send_prop_hash("DT_BasePlayer"@, "m_lifeState"@),
            local_origin: send_prop_hash("DT_TFLocalPlayerExclusive"@, "m_vecOrigin"@),
            non_local_origin: send_prop_hash("DT_TFNonLocalPlayerExclusive"@, "m_vecOrigin"@),
            local_origin_z: send_prop_hash("DT_TFLocalPlayerExclusive"@, "m_vecOrigin[2]"@),
            non_local_origin_z: send_prop_hash("DT_TFNonLocalPlayerExclusive"@, "m_vecOrigin[2]"@),
            local_eye_angles: send_prop_hash("DT_TFLocalPlayerExclusive"@, "m_angEyeAngles[1]"@),
            non_local_eye_angles: send_prop_hash("DT_TFNonLocalPlayerExclusive"@, "m_angEyeAngles[1]"@),
            local_pitch_angles: send_prop_hash("DT_TFLocalPlayerExclusive"@, "m_angEyeAngles[0]"@),
            non_local_pitch_angles: send_prop_hash("DT_TFNonLocalPlayerExclusive"@, "m_angEyeAngles[0]"@),
            simtime: send_prop_hash("DT_BaseEntity"@, "m_flSimulationTime"@),
        }
    }

    /// Looks the identifiers up.
    pub fn new() -> (props: PlayerProps)
        ensures
            props == PlayerProps::table(),
    {
        PlayerProps {
            health: send_prop_identifier("DT_BasePlayer", "m_iHealth"),
            max_health: send_prop_identifier("DT_BasePlayer", "m_iMaxHealth"),
            life_state: send_prop_identifier("DT_BasePlayer", "m_lifeState"),
            local_origin: send_prop_identifier("DT_TFLocalPlayerExclusive", "m_vecOrigin"),
            non_local_origin: send_prop_identifier("DT_TFNonLocalPlayerExclusive", "m_vecOrigin"),
            local_origin_z: send_prop_identifier("DT_TFLocalPlayerExclusive", "m_vecOrigin[2]"),
            non_local_origin_z: send_prop_identifier("DT_TFNonLocalPlayerExclusive", "m_vecOrigin[2]"),
            local_eye_angles: send_prop_identifier("DT_TFLocalPlayerExclusive", "m_angEyeAngles[1]"),
            non_local_eye_angles: send_prop_identifier("DT_TFNonLocalPlayerExclusive", "m_angEyeAngles[1]"),
            local_pitch_angles: send_prop_identifier("DT_TFLocalPlayerExclusive", "m_angEyeAngles[0]"),
            non_local_pitch_angles: send_prop_identifier("DT_TFNonLocalPlayerExclusive", "m_angEyeAngles[0]"),
            simtime: send_prop_identifier("DT_BaseEntity", "m_flSimulationTime"),
        }
    }
}

/// The properties that every kind of building has.
#[derive(Debug, Clone, Copy, PartialEq, Eq, Structural)]
pub struct BuildingProps {
    pub origin: u64,
    pub team: u64,
    pub angle: u64,
    pub sapped: u64,
    pub building: u64,
    pub level: u64,
    pub builder: u64,
    pub max_health: u64,
    pub health: u64,
}

impl BuildingProps {
    /// The identifier of each property, by the names under which the game
    /// publishes it.
    pub open spec fn table() -> BuildingProps {
        BuildingProps {
            origin: send_prop_hash("DT_BaseEntity"@, "m_vecOrigin"@),
            team: send_prop_hash("DT_BaseEntity"@, "m_iTeamNum"@),
            angle: send_prop_hash("DT_BaseEntity"@, "m_angRotation"@),
            sapped: send_prop_hash("DT_BaseObject"@, "m_bHasSapper"@),
            building: send_prop_hash("DT_BaseObject"@, "m_bBuilding"@),
            level: send_prop_hash("DT_BaseObject"@, "m_iUpgradeLevel"@),
            builder: send_prop_hash("DT_BaseObject"@, "m_hBuilder"@),
            max_health: send_prop_hash("DT_BaseObject"@, "m_iMaxHealth"@),
            health: send_prop_hash("DT_BaseObject"@, "m_iHealth"@),
        }
    }

    /// Looks the identifiers up.
    pub fn new() -> (props: BuildingProps)
        ensures
            props == BuildingProps::table(),
    {
        BuildingProps {
            origin: send_prop_identifier("DT_BaseEntity", "m_vecOrigin"),
            team: send_prop_identifier("DT_BaseEntity", "m_iTeamNum"),
            angle: send_prop_identifier("DT_BaseEntity", "m_angRotation"),
            sapped: send_prop_identifier("DT_BaseObject", "m_bHasSapper"),
            building: send_prop_identifier("DT_BaseObject", "m_bBuilding"),
            level: send_prop_identifier("DT_BaseObject", "m_iUpgradeLevel"),
            builder: send_prop_identifier("DT_BaseObject", "m_hBuilder"),
            max_health: send_prop_identifier("DT_BaseObject", "m_iMaxHealth"),
            health: send_prop_identifier("DT_BaseObject", "m_iHealth"),
        }
    }
}

/// The properties of a sentry gun.
#[derive(Debug, Clone, Copy, PartialEq, Eq, Structural)]
pub struct SentryProps {
    pub angle: u64,
    pub mini: u64,
    pub controlled: u64,
    pub target: u64,
    pub shells: u64,
    pub rockets: u64,
}

impl SentryProps {
    /// The identifier of each property, by the names under which the game
    /// publishes it.
    pub open spec fn table() -> SentryProps {
        SentryProps {
            angle: send_prop_hash("DT_TFNonLocalPlayerExclusive"@, "m_angEyeAngles[1]"@),
            mini: send_prop_hash("DT_BaseObject"@, "m_bMiniBuilding"@),
            controlled: send_prop_hash("DT_ObjectSentrygun"@, "m_bPlayerControlled"@),
            target: send_prop_hash("DT_ObjectSentrygun"@, "m_hAutoAimTarget"@),
            shells: send_prop_hash("DT_ObjectSentrygun"@, "m_iAmmoShells"@),
            rockets: send_prop_hash("DT_ObjectSentrygun"@, "m_iAmmoRockets"@),
        }
    }

    /// Looks the identifiers up.
    pub fn new() -> (props: SentryProps)
        ensures
            props == SentryProps::table(),
    {
        SentryProps {
            angle: send_prop_identifier("DT_TFNonLocalPlayerExclusive", "m_angEyeAngles[1]"),
            mini: send_prop_identifier("DT_BaseObject", "m_bMiniBuilding"),
            controlled: send_prop_identifier("DT_ObjectSentrygun", "m_bPlayerControlled"),
            target: send_prop_identifier("DT_ObjectSentrygun", "m_hAutoAimTarget"),
            shells: send_prop_identifier("DT_ObjectSentrygun", "m_iAmmoShells"),
            rockets: send_prop_identifier("DT_ObjectSentrygun", "m_iAmmoRockets"),
        }
    }
}

/// The properties of a teleporter.
#[derive(Debug, Clone, Copy, PartialEq, Eq, Structural)]
pub struct TeleporterProps {
    pub recharge_time: u64,
    pub recharge_duration: u64,
    pub times_used: u64,
    pub other_end: u64,
    pub yaw_to_exit: u64,
    pub is_entrance: u64,
}

impl TeleporterProps {
    /// The identifier of each property, by the names under which the game
    /// publishes it.
    pub open spec fn table() -> TeleporterProps {
        TeleporterProps {
            recharge_time: send_prop_hash("DT_ObjectTeleporter"@, "m_flRechargeTime"@),
            recharge_duration: send_prop_hash("DT_ObjectTeleporter"@, "m_flCurrentRechargeDuration"@),
            times_used: send_prop_hash("DT_ObjectTeleporter"@, "m_iTimesUsed"@),
            other_end: send_prop_hash("DT_ObjectTeleporter"@, "m_bMatchBuilding"@),
            yaw_to_exit: send_prop_hash("DT_ObjectTeleporter"@, "m_flYawToExit"@),
            is_entrance: send_prop_hash("DT_BaseObject"@, "m_iObjectMode"@),
        }
    }

    /// Looks the identifiers up.
    pub fn new() -> (props: TeleporterProps)
        ensures
            props == TeleporterProps::table(),
    {
        TeleporterProps {
            recharge_time: send_prop_identifier("DT_ObjectTeleporter", "m_flRechargeTime"),
            recharge_duration: send_prop_identifier("DT_ObjectTeleporter", "m_flCurrentRechargeDuration"),
            times_used: send_prop_identifier("DT_ObjectTeleporter", "m_iTimesUsed"),
            other_end: send_prop_identifier("DT_ObjectTeleporter", "m_bMatchBuilding"),
            yaw_to_exit: send_prop_identifier("DT_ObjectTeleporter", "m_flYawToExit"),
            is_entrance: send_prop_identifier("DT_BaseObject", "m_iObjectMode"),
        }
    }
}

/// The properties of a dispenser.
#[derive(Debug, Clone, Copy, PartialEq, Eq, Structural)]
pub struct DispenserProps {
    pub ammo: u64,
    pub healing: u64,
}

impl DispenserProps {
    /// The identifier of each property, by the names under which the game
    /// publishes it.
    pub open spec fn table() -> DispenserProps {
        DispenserProps {
            ammo: send_prop_hash("DT_ObjectDispenser"@, "m_iAmmoMetal"@),
            healing: send_prop_hash("DT_ObjectDispenser"@, "healing_array"@),
        }
    }

    /// Looks the identifiers up.
    pub fn new() -> (props: DispenserProps)
        ensures
            props == DispenserProps::table(),
    {
        DispenserProps {
            ammo: send_prop_identifier("DT_ObjectDispenser", "m_iAmmoMetal"),
            healing: send_prop_identifier("DT_ObjectDispenser", "healing_array"),
        }
    }
}

/// The properties of the world entity.
#[derive(Debug, Clone, Copy, PartialEq, Eq, Structural)]
pub struct WorldProps {
    pub mins: u64,
    pub maxs: u64,
}

impl WorldProps {
    /// The identifier of each property, by the names under which the game
    /// publishes it.
    pub open spec fn table() -> WorldProps {
        WorldProps {
            mins: send_prop_hash("DT_WORLD"@, "m_WorldMins"@),
            maxs: send_prop_hash("DT_WORLD"@, "m_WorldMaxs"@),
        }
    }

    /// Looks the identifiers up.
    pub fn new() -> (props: WorldProps)
        ensures
            props == WorldProps::table(),
    {
        WorldProps {
            mins: send_prop_identifier("DT_WORLD", "m_WorldMins"),
            maxs: send_prop_identifier("DT_WORLD", "m_WorldMaxs"),
        }
    }
}

/// The identifiers of all the properties that the state builder reads, looked
/// up once.
#[derive(Debug, Clone, Copy)]
pub struct PropTables {
    player: PlayerProps,
    building: BuildingProps,
    sentry: SentryProps,
    teleporter: TeleporterProps,
    dispenser: DispenserProps,
    world: WorldProps,
}

impl PropTables {
    #[verifier::type_invariant]
    closed spec fn matches_names(self) -> bool {
        &&& self.player == PlayerProps::table()
        &&& self.building == BuildingProps::table()
        &&& self.sentry == SentryProps::table()
        &&& self.teleporter == TeleporterProps::table()
        &&& self.dispenser == DispenserProps::table()
        &&& self.world == WorldProps::table()
    }

    /// The identifiers that the tables hold for the properties of a player
    /// entity.
    pub closed spec fn player_ids(self) -> PlayerProps {
        self.player
    }

    /// Looks up the identifier that the decoder gives to each property.
    pub fn new() -> (tables: PropTables)
        ensures
            tables.player_ids() == PlayerProps::table(),
            tables.building_ids() == BuildingProps::table(),
            tables.sentry_ids() == SentryProps::table(),
            tables.teleporter_ids() == TeleporterProps::table(),
            tables.dispenser_ids() == DispenserProps::table(),
            tables.world_ids() == WorldProps::table(),
    {
        PropTables {
            player: PlayerProps::new(),
            building: BuildingProps::new(),
            sentry: SentryProps::new(),
            teleporter: TeleporterProps::new(),
            dispenser: DispenserProps::new(),
            world: WorldProps::new(),
        }
    }

    /// The identifiers that the tables hold for the properties of every kind of building.
    pub closed spec fn building_ids(self) -> BuildingProps {
        self.building
    }

    /// The identifiers that the tables hold for the properties of a sentry gun.
    pub closed spec fn sentry_ids(self) -> SentryProps {
        self.sentry
    }

    /// The identifiers that the tables hold for the properties of a teleporter.
    pub closed spec fn teleporter_ids(self) -> TeleporterProps {
        self.teleporter
    }

    /// The identifiers that the tables hold for the properties of a dispenser.
    pub closed spec fn dispenser_ids(self) -> DispenserProps {
        self.dispenser
    }

    /// The identifiers that the tables hold for the properties of the world entity.
    pub closed spec fn world_ids(self) -> WorldProps {
        self.world
    }

    /// The identifiers of the properties of a player entity.
    pub fn player(&self) -> (props: &PlayerProps)
        ensures
            *props == self.player_ids(),
            *props == PlayerProps::table(),
    {
        proof {
            use_type_invariant(self);
        }
        &self.player
    }

    /// The identifiers of the properties of every kind of building.
    pub fn building(&self) -> (props: &BuildingProps)
        ensures
            *props == self.building_ids(),
            *props == BuildingProps::table(),
    {
        proof {
            use_type_invariant(self);
        }
        &self.building
    }

    /// The identifiers of the properties of a sentry gun.
    pub fn sentry(&self) -> (props: &SentryProps)
        ensures
            *props == self.sentry_ids(),
            *props == SentryProps::table(),
    {
        proof {
            use_type_invariant(self);
        }
        &self.sentry
    }

    /// The identifiers of the properties of a teleporter.
    pub fn teleporter(&self) -> (props: &TeleporterProps)
        ensures
            *props == self.teleporter_ids(),
            *props == TeleporterProps::table(),
    {
        proof {
            use_type_invariant(self);
        }
        &self.teleporter
    }

    /// The identifiers of the properties of a dispenser.
    pub fn dispenser(&self) -> (props: &DispenserProps)
        ensures
            *props == self.dispenser_ids(),
            *props == DispenserProps::table(),
    {
        proof {
            use_type_invariant(self);
        }
        &self.dispenser
    }

    /// The identifiers of the properties of the world entity.
    pub fn world(&self) -> (props: &WorldProps)
        ensures
            *props == self.world_ids(),
            *props == WorldProps::table(),
    {
        proof {
            use_type_invariant(self);
        }
        &self.world
    }
}

/// The integer that a value stands for: its content if it is an integer, zero
/// otherwise.
pub open spec fn integer_of(value: PropValue) -> i64 {
    match value {
        PropValue::Integer(v) => v,
        _ => 0,
    }
}

/// The measure that a value stands for: its content if it is a float, zero
/// otherwise.
pub open spec fn float_of(value: PropValue) -> i64 {
    match value {
        PropValue::Float(v) => v,
        _ => 0,
    }
}

/// The point that a value stands for: its content if it is a vector, the
/// origin otherwise.
pub open spec fn vector_of(value: PropValue) -> Vector {
    match value {
        PropValue::Vector(v) => v,
        _ => Vector::zero(),
    }
}

/// The horizontal point that a value stands for: its content if it is a
/// two-axis vector, the origin otherwise.
pub open spec fn vector_xy_of(value: PropValue) -> VectorXY {
    match value {
        PropValue::VectorXY(v) => v,
        _ => VectorXY { x: 0, y: 0 },
    }
}

impl PropValue {
    /// Reads the value as an integer, with zero for any other kind.
    pub fn as_integer(&self) -> (v: i64)
        ensures
            v == integer_of(*self),
    {
        match self {
            PropValue::Integer(v) => *v,
            _ => 0,
        }
    }

    /// Reads the value as a float, with zero for any other kind.
    pub fn as_float(&self) -> (v: i64)
        ensures
            v == float_of(*self),
    {
        match self {
            PropValue::Float(v) => *v,
            _ => 0,
        }
    }

    /// Reads the value as a vector, with the origin for any other kind.
    pub fn as_vector(&self) -> (v: Vector)
        ensures
            v == vector_of(*self),
    {
        match self {
            PropValue::Vector(v) => *v,
            _ => Vector { x: 0, y: 0, z: 0 },
        }
    }

    /// Reads the value as a two-axis vector, with the origin for any other
    /// kind.
    pub fn as_vector_xy(&self) -> (v: VectorXY)
        ensures
            v == vector_xy_of(*self),
    {
        match self {
            PropValue::VectorXY(v) => *v,
            _ => VectorXY { x: 0, y: 0 },
        }
    }
}

/// The position of the first property with the given identifier among the
/// first `n` of `props`.
pub open spec fn first_with_identifier(props: Seq<Prop>, identifier: u64, n: int) -> Option<int>
    decreases n,
{
    if n <= 0 {
        None
    } else {
        match first_with_identifier(props, identifier, n - 1) {
            Some(i) => Some(i),
            None => if props[n - 1].identifier == identifier {
                Some(n - 1)
            } else {
                None
            },
        }
    }
}

/// Finds the first property with the given identifier.
pub fn find_prop(props: &Vec<Prop>, identifier: u64) -> (found: Option<usize>)
    ensures
        match found {
            Some(i) => first_with_identifier(props@, identifier, props@.len() as int) == Some(
                i as int,
            ) && i < props@.len(),
            None => first_with_identifier(props@, identifier, props@.len() as int) is None,
        },
{
    let mut i: usize = 0;
    while i < props.len()
        invariant
            i <= props.len(),
            first_with_identifier(props@, identifier, i as int) is None,
        decreases props.len() - i,
    {
        if props[i].identifier == identifier {
            proof {
                lemma_first_stays(props@, identifier, i as int + 1, props@.len() as int);
            }
            return Some(i);
        }
        i += 1;
    }
    None
}

proof fn lemma_first_stays(props: Seq<Prop>, identifier: u64, n: int, m: int)
    requires
        0 <= n <= m,
        first_with_identifier(props, identifier, n) is Some,
    ensures
        first_with_identifier(props, identifier, m) == first_with_identifier(props, identifier, n),
    decreases m - n,
{
    if n < m {
        lemma_first_stays(props, identifier, n, m - 1);
    }
}

} // verus!
