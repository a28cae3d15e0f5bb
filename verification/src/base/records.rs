//! The records of a recording, as the decoder hands them over.

use vstd::prelude::*;
use crate::util::helpers::{Vector, VectorXY};

verus! {

/// What an entity update does to the entity's presence.
#[derive(Debug, Clone, Copy, PartialEq, Eq, Structural)]
pub enum UpdateType {
    Delta,
    Leave,
    Enter,
    Delete,
}

/// The value that a property update carries.
///
/// `Float` and the vector kinds hold fixed-point values. An array lists its
/// items in order, each as the integer it holds, or `None` for an item of
/// another kind.
#[derive(Debug, Clone, PartialEq, Eq)]
pub enum PropValue {
    Vector(Vector),
    VectorXY(VectorXY),
    Integer(i64),
    Float(i64),
    String(String),
    Array(Vec<Option<i64>>),
}

/// One property update: the property's identifier and its new value.
#[derive(Debug, Clone, PartialEq, Eq)]
pub struct Prop {
    pub index: u32,
    pub identifier: u64,
    pub value: PropValue,
}

/// A decoded update of one entity.
///
/// `props` lists the properties in the order in which they apply; for an
/// entity that enters, the properties of its baseline follow its own.
#[derive(Debug, Clone, PartialEq, Eq)]
pub struct EntityUpdate {
    pub server_class: u16,
    pub entity_index: u32,
    pub props: Vec<Prop>,
    pub in_pvs: bool,
    pub update_type: UpdateType,
}

/// A transient effect, such as a bullet tracer or an animation cue.
#[derive(Debug, Clone, PartialEq, Eq)]
pub struct TempEntity {
    pub class_id: u16,
    pub props: Vec<Prop>,
}

/// The game events that the analysis reads; every other event is `Other`.
#[derive(Debug, Clone, Copy, PartialEq, Eq, Structural)]
pub enum GameEvent {
    RoundStart,
    TeamPlayRoundStart,
    ObjectDestroyed { index: u16 },
    PlayerSpawn { user_id: u16 },
    PostInventoryApplication { user_id: u16 },
    PlayerTeleported { user_id: u16 },
    Other,
}

/// The kind of a message in the recording.
#[derive(Debug, Clone, Copy, PartialEq, Eq, Structural)]
pub enum MessageType {
    Empty,
    File,
    NetTick,
    StringCmd,
    SetConVar,
    SignOnState,
    Print,
    ServerInfo,
    ClassInfo,
    SetPause,
    CreateStringTable,
    UpdateStringTable,
    VoiceInit,
    VoiceData,
    ParseSounds,
    SetView,
    FixAngle,
    BspDecal,
    UserMessage,
    EntityMessage,
    GameEvent,
    PacketEntities,
    TempEntities,
    PreFetch,
    Menu,
    GameEventList,
    GetCvarValue,
    CmdKeyValues,
}

/// A decoded message, with the content that the analysis reads.
#[derive(Debug, Clone, PartialEq, Eq)]
pub enum Message {
    PacketEntities(Vec<EntityUpdate>),
    NetTick,
    GameEvent(GameEvent),
    TempEntities(Vec<TempEntity>),
    Other(MessageType),
}

impl Message {
    /// The kind of this message.
    pub open spec fn message_type(self) -> MessageType {
        match self {
            Message::PacketEntities(_) => MessageType::PacketEntities,
            Message::NetTick => MessageType::NetTick,
            Message::GameEvent(_) => MessageType::GameEvent,
            Message::TempEntities(_) => MessageType::TempEntities,
            Message::Other(kind) => kind,
        }
    }

    /// The kind of this message.
    pub fn get_message_type(&self) -> (kind: MessageType)
        ensures
            kind == self.message_type(),
    {
        match self {
            Message::PacketEntities(_) => MessageType::PacketEntities,
            Message::NetTick => MessageType::NetTick,
            Message::GameEvent(_) => MessageType::GameEvent,
            Message::TempEntities(_) => MessageType::TempEntities,
            Message::Other(kind) => *kind,
        }
    }
}

} // verus!
