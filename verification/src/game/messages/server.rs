//! What the simulation tells connections about the world.

use crate::data::ids::NpcId;
use crate::game::components::position::Position;
use vstd::prelude::*;

verus! {

/// An entity set out for a point, possibly in pursuit of another entity.
#[derive(Copy, Clone, Debug, PartialEq, Eq, Structural)]
pub struct MoveEntity {
    pub entity_id: u16,
    pub target_entity_id: u16,
    pub distance: u16,
    pub x: i32,
    pub y: i32,
    pub z: u16,
}

/// An entity stopped where it stands.
#[derive(Copy, Clone, Debug, PartialEq, Eq, Structural)]
pub struct StopMoveEntity {
    pub entity_id: u16,
    pub x: i32,
    pub y: i32,
    pub z: u16,
}

/// An entity turned on a target, which stands at the given point.
#[derive(Copy, Clone, Debug, PartialEq, Eq, Structural)]
pub struct AttackEntity {
    pub entity_id: u16,
    pub target_entity_id: u16,
    pub distance: u16,
    pub x: i32,
    pub y: i32,
    pub z: u16,
}

#[derive(Copy, Clone, Debug, PartialEq, Eq, Structural)]
pub struct Teleport {
    pub entity_id: u16,
    pub zone_no: u16,
    pub x: i32,
    pub y: i32,
    pub run_mode: u8,
    pub ride_mode: u8,
}

#[derive(Debug)]
pub struct LocalChat {
    pub entity_id: u16,
    pub text: String,
}

#[derive(Debug)]
pub struct Whisper {
    pub from: String,
    pub text: String,
}

/// The kind of an NPC or monster and the conversation it opens with.
#[derive(Copy, Clone, Debug, PartialEq, Eq, Structural)]
pub struct Npc {
    pub id: NpcId,
    pub quest_index: u16,
}

/// An NPC came into view.
#[derive(Copy, Clone, Debug, PartialEq, Eq, Structural)]
pub struct SpawnEntityNpc {
    pub entity_id: u16,
    pub npc: Npc,
    pub position: Position,
}

/// A monster came into view.
#[derive(Copy, Clone, Debug, PartialEq, Eq, Structural)]
pub struct SpawnEntityMonster {
    pub entity_id: u16,
    pub monster: Npc,
    pub position: Position,
}

/// The character of another player came into view.
#[derive(Copy, Clone, Debug, PartialEq, Eq, Structural)]
pub struct SpawnEntityCharacter {
    pub entity_id: u16,
    pub position: Position,
}

/// Entities went out of view.
#[derive(Debug)]
pub struct RemoveEntities {
    pub entity_ids: Vec<u16>,
}

#[derive(Debug)]
pub enum ServerMessage {
    ReturnToCharacterSelect,
    LocalChat(LocalChat),
    Whisper(Whisper),
    MoveEntity(MoveEntity),
    StopMoveEntity(StopMoveEntity),
    AttackEntity(AttackEntity),
    Teleport(Teleport),
    SpawnEntityNpc(SpawnEntityNpc),
    SpawnEntityMonster(SpawnEntityMonster),
    SpawnEntityCharacter(SpawnEntityCharacter),
    RemoveEntities(RemoveEntities),
}

/// A server message as a mathematical value.
pub enum ServerMessageView {
    ReturnToCharacterSelect,
    LocalChat { entity_id: u16, text: Seq<char> },
    Whisper { from: Seq<char>, text: Seq<char> },
    MoveEntity(MoveEntity),
    StopMoveEntity(StopMoveEntity),
    AttackEntity(AttackEntity),
    Teleport(Teleport),
    SpawnEntityNpc(SpawnEntityNpc),
    SpawnEntityMonster(SpawnEntityMonster),
    SpawnEntityCharacter(SpawnEntityCharacter),
    RemoveEntities { entity_ids: Seq<u16> },
}

impl View for ServerMessage {
    type V = ServerMessageView;

    open spec fn view(&self) -> ServerMessageView {
        match self {
            ServerMessage::ReturnToCharacterSelect => ServerMessageView::ReturnToCharacterSelect,
            ServerMessage::LocalChat(m) => ServerMessageView::LocalChat {
                entity_id: m.entity_id,
                text: m.text@,
            },
            ServerMessage::Whisper(m) => ServerMessageView::Whisper { from: m.from@, text: m.text@ },
            ServerMessage::MoveEntity(m) => ServerMessageView::MoveEntity(*m),
            ServerMessage::StopMoveEntity(m) => ServerMessageView::StopMoveEntity(*m),
            ServerMessage::AttackEntity(m) => ServerMessageView::AttackEntity(*m),
            ServerMessage::Teleport(m) => ServerMessageView::Teleport(*m),
            ServerMessage::SpawnEntityNpc(m) => ServerMessageView::SpawnEntityNpc(*m),
            ServerMessage::SpawnEntityMonster(m) => ServerMessageView::SpawnEntityMonster(*m),
            ServerMessage::SpawnEntityCharacter(m) => ServerMessageView::SpawnEntityCharacter(*m),
            ServerMessage::RemoveEntities(m) => ServerMessageView::RemoveEntities {
                entity_ids: m.entity_ids@,
            },
        }
    }
}

impl Clone for ServerMessage {
    fn clone(&self) -> (copy: Self)
        ensures
            copy@ == self@,
    {
        match self {
            ServerMessage::ReturnToCharacterSelect => ServerMessage::ReturnToCharacterSelect,
            ServerMessage::LocalChat(m) => ServerMessage::LocalChat(
                LocalChat { entity_id: m.entity_id, text: m.text.clone() },
            ),
            ServerMessage::Whisper(m) => ServerMessage::Whisper(
                Whisper { from: m.from.clone(), text: m.text.clone() },
            ),
            ServerMessage::MoveEntity(m) => ServerMessage::MoveEntity(*m),
            ServerMessage::StopMoveEntity(m) => ServerMessage::StopMoveEntity(*m),
            ServerMessage::AttackEntity(m) => ServerMessage::AttackEntity(*m),
            ServerMessage::Teleport(m) => ServerMessage::Teleport(*m),
            ServerMessage::SpawnEntityNpc(m) => ServerMessage::SpawnEntityNpc(*m),
            ServerMessage::SpawnEntityMonster(m) => ServerMessage::SpawnEntityMonster(*m),
            ServerMessage::SpawnEntityCharacter(m) => ServerMessage::SpawnEntityCharacter(*m),
            ServerMessage::RemoveEntities(m) => {
                let mut entity_ids: Vec<u16> = Vec::new();
                let mut i: usize = 0;
                while i < m.entity_ids.len()
                    invariant
                        i <= m.entity_ids.len(),
                        entity_ids@ == m.entity_ids@.take(i as int),
                    decreases m.entity_ids.len() - i,
                {
                    entity_ids.push(m.entity_ids[i]);
                    assert(entity_ids@ =~= m.entity_ids@.take(i + 1));
                    i += 1;
                }
                assert(entity_ids@ =~= m.entity_ids@);
                ServerMessage::RemoveEntities(RemoveEntities { entity_ids })
            },
        }
    }
}

} // verus!
