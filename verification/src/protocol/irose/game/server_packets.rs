//! The packets that the game tier sends to a client.

use crate::data::character::{BasicStats, HotbarSlot, Inventory, Level};
use crate::game::components::position::Position;
use crate::game::messages::client::{GameConnectionResponse, JoinZoneResponse};
use crate::game::messages::server::{
    AttackEntity, LocalChat, MoveEntity, Npc, RemoveEntities, SpawnEntityCharacter,
    SpawnEntityMonster, SpawnEntityNpc, StopMoveEntity, Teleport, Whisper,
};
use crate::irose::protocol::world::server_packets::{put_equipment, write_equipment};
use crate::protocol::irose::game::common_packets::{encode_hotbar_slot, packed_hotbar_slot};
use crate::protocol::packet::{Packet, PacketView};
use crate::protocol::writer::{
    put_text, put_u16, put_u16_list, put_u32, put_units, PacketWriter,
};
use vstd::prelude::*;

verus! {

/// The commands of the game tier that the server can send.
#[derive(Copy, Clone, Debug, PartialEq, Eq, Structural)]
pub enum ServerPackets {
    ConnectReply,
    SelectCharacter,
    CharacterInventory,
    QuestData,
    JoinZone,
    LocalChat,
    Whisper,
    SpawnEntityNpc,
    SpawnEntityMonster,
    SpawnEntityCharacter,
    RemoveEntities,
    StopMoveEntity,
    AttackEntity,
    MoveEntity,
    Teleport,
    SetHotbarSlot,
}

impl ServerPackets {
    /// The number of the command on the wire.
    pub open spec fn number(self) -> u16 {
        match self {
            ServerPackets::ConnectReply => 0x70c,
            ServerPackets::SelectCharacter => 0x715,
            ServerPackets::CharacterInventory => 0x716,
            ServerPackets::QuestData => 0x71b,
            ServerPackets::JoinZone => 0x753,
            ServerPackets::LocalChat => 0x783,
            ServerPackets::Whisper => 0x784,
            ServerPackets::SpawnEntityNpc => 0x791,
            ServerPackets::SpawnEntityMonster => 0x792,
            ServerPackets::SpawnEntityCharacter => 0x793,
            ServerPackets::RemoveEntities => 0x794,
            ServerPackets::StopMoveEntity => 0x796,
            ServerPackets::AttackEntity => 0x798,
            ServerPackets::MoveEntity => 0x79a,
            ServerPackets::Teleport => 0x7a8,
            ServerPackets::SetHotbarSlot => 0x7aa,
        }
    }

    /// The command with the number, if there is one.
    pub open spec fn with_number(command: u16) -> Option<ServerPackets> {
        match command {
            0x70c => Some(ServerPackets::ConnectReply),
            0x715 => Some(ServerPackets::SelectCharacter),
            0x716 => Some(ServerPackets::CharacterInventory),
            0x71b => Some(ServerPackets::QuestData),
            0x753 => Some(ServerPackets::JoinZone),
            0x783 => Some(ServerPackets::LocalChat),
            0x784 => Some(ServerPackets::Whisper),
            0x791 => Some(ServerPackets::SpawnEntityNpc),
            0x792 => Some(ServerPackets::SpawnEntityMonster),
            0x793 => Some(ServerPackets::SpawnEntityCharacter),
            0x794 => Some(ServerPackets::RemoveEntities),
            0x796 => Some(ServerPackets::StopMoveEntity),
            0x798 => Some(ServerPackets::AttackEntity),
            0x79a => Some(ServerPackets::MoveEntity),
            0x7a8 => Some(ServerPackets::Teleport),
            0x7aa => Some(ServerPackets::SetHotbarSlot),
            _ => None,
        }
    }

    pub fn from_u16(command: u16) -> (known: Option<ServerPackets>)
        ensures
            known == Self::with_number(command),
    {
        match command {
            0x70c => Some(ServerPackets::ConnectReply),
            0x715 => Some(ServerPackets::SelectCharacter),
            0x716 => Some(ServerPackets::CharacterInventory),
            0x71b => Some(ServerPackets::QuestData),
            0x753 => Some(ServerPackets::JoinZone),
            0x783 => Some(ServerPackets::LocalChat),
            0x784 => Some(ServerPackets::Whisper),
            0x791 => Some(ServerPackets::SpawnEntityNpc),
            0x792 => Some(ServerPackets::SpawnEntityMonster),
            0x793 => Some(ServerPackets::SpawnEntityCharacter),
            0x794 => Some(ServerPackets::RemoveEntities),
            0x796 => Some(ServerPackets::StopMoveEntity),
            0x798 => Some(ServerPackets::AttackEntity),
            0x79a => Some(ServerPackets::MoveEntity),
            0x7a8 => Some(ServerPackets::Teleport),
            0x7aa => Some(ServerPackets::SetHotbarSlot),
            _ => None,
        }
    }

    pub fn to_u16(&self) -> (command: u16)
        ensures
            command == self.number(),
    {
        match self {
            ServerPackets::ConnectReply => 0x70c,
            ServerPackets::SelectCharacter => 0x715,
            ServerPackets::CharacterInventory => 0x716,
            ServerPackets::QuestData => 0x71b,
            ServerPackets::JoinZone => 0x753,
            ServerPackets::LocalChat => 0x783,
            ServerPackets::Whisper => 0x784,
            ServerPackets::SpawnEntityNpc => 0x791,
            ServerPackets::SpawnEntityMonster => 0x792,
            ServerPackets::SpawnEntityCharacter => 0x793,
            ServerPackets::RemoveEntities => 0x794,
            ServerPackets::StopMoveEntity => 0x796,
            ServerPackets::AttackEntity => 0x798,
            ServerPackets::MoveEntity => 0x79a,
            ServerPackets::Teleport => 0x7a8,
            ServerPackets::SetHotbarSlot => 0x7aa,
        }
    }

    /// The number of a command names that command, and a number that
    /// names a command is the number of that command.
    pub proof fn lemma_number_round_trip(self, command: u16)
        ensures
            Self::with_number(self.number()) == Some(self),
            Self::with_number(command) matches Some(known) ==> known.number() == command,
    {
    }
}

/// A place in a payload: the zone in two bytes, the two coordinates of
/// the ground plane, and the height in two bytes.
pub open spec fn put_position(position: Position) -> Seq<u8> {
    put_u16(position.zone.value()) + put_units(position.position.x) + put_units(
        position.position.y,
    ) + put_u16(crate::game::geometry::message_height(position.position.z))
}

pub fn write_position(writer: &mut PacketWriter, position: &Position)
    ensures
        final(writer)@ == (PacketView {
            command: old(writer)@.command,
            data: old(writer)@.data + put_position(*position),
        }),
{
    writer.write_u16(position.zone.get());
    writer.write_units(position.position.x);
    writer.write_units(position.position.y);
    writer.write_u16(crate::game::geometry::to_message_height(position.position.z));
    assert(writer@.data =~= old(writer)@.data + put_position(*position));
}

/// The basic stats in a payload, two bytes each.
pub open spec fn put_basic_stats(stats: BasicStats) -> Seq<u8> {
    put_u16(stats.strength) + put_u16(stats.dexterity) + put_u16(stats.intelligence) + put_u16(
        stats.concentration,
    ) + put_u16(stats.charm) + put_u16(stats.sense)
}

/// The level in a payload: the level in two bytes, then the low and the
/// high half of the experience points in four bytes each.
pub open spec fn put_level(level: Level) -> Seq<u8> {
    put_u16((level.level % 0x1_0000) as u16) + put_u32((level.xp % 0x1_0000_0000) as u32)
        + put_u32((level.xp / 0x1_0000_0000) as u32)
}

pub fn write_level(writer: &mut PacketWriter, level: &Level)
    ensures
        final(writer)@ == (PacketView {
            command: old(writer)@.command,
            data: old(writer)@.data + put_level(*level),
        }),
{
    writer.write_u16((level.level % 0x1_0000) as u16);
    writer.write_u32((level.xp % 0x1_0000_0000) as u32);
    writer.write_u32((level.xp / 0x1_0000_0000) as u32);
    assert(writer@.data =~= old(writer)@.data + put_level(*level));
}

/// The hotbar slots as they stand on the wire.
pub open spec fn packed_hotbar(slots: Seq<Option<HotbarSlot>>) -> Seq<u16> {
    Seq::new(slots.len(), |i: int| packed_hotbar_slot(slots[i]))
}

/// The character that a connection takes over, in a payload: gender,
/// birth stone, face and hair in one byte each, the place, the equipment,
/// the basic stats, the level, the number of skills in two bytes and the
/// skills, the number of hotbar slots in two bytes and the slots, and the
/// name.
pub open spec fn select_character(
    name: Seq<char>,
    gender: u8,
    birth_stone: u8,
    face: u8,
    hair: u8,
    position: Position,
    equipment: crate::data::character::Equipment,
    basic_stats: BasicStats,
    level: Level,
    skill_list: Seq<u16>,
    hotbar: Seq<Option<HotbarSlot>>,
) -> PacketView {
    PacketView {
        command: ServerPackets::SelectCharacter.number(),
        data: seq![gender, birth_stone, face, hair] + put_position(position) + put_equipment(
            equipment,
        ) + put_basic_stats(basic_stats) + put_level(level) + put_u16(
            (skill_list.len() % 0x1_0000) as u16,
        ) + put_u16_list(skill_list) + put_u16((hotbar.len() % 0x1_0000) as u16) + put_u16_list(
            packed_hotbar(hotbar),
        ) + put_text(name),
    }
}

/// The packet that tells a connection which character it has taken over.
pub fn select_character_packet(response: &GameConnectionResponse) -> (packet: Packet)
    ensures
        packet@ == select_character(
            response.name@,
            response.gender,
            response.birth_stone,
            response.face,
            response.hair,
            response.position,
            response.equipment,
            response.basic_stats,
            response.level,
            response.skill_list@,
            response.hotbar@,
        ),
{
    let mut writer = PacketWriter::new(ServerPackets::SelectCharacter.to_u16());
    writer.write_u8(response.gender);
    writer.write_u8(response.birth_stone);
    writer.write_u8(response.face);
    writer.write_u8(response.hair);
    write_position(&mut writer, &response.position);
    write_equipment(&mut writer, &response.equipment);
    writer.write_u16(response.basic_stats.strength);
    writer.write_u16(response.basic_stats.dexterity);
    writer.write_u16(response.basic_stats.intelligence);
    writer.write_u16(response.basic_stats.concentration);
    writer.write_u16(response.basic_stats.charm);
    writer.write_u16(response.basic_stats.sense);
    write_level(&mut writer, &response.level);
    writer.write_u16((response.skill_list.len() % 0x1_0000) as u16);
    writer.write_u16_list(&response.skill_list);
    writer.write_u16((response.hotbar.len() % 0x1_0000) as u16);
    let mut packed: Vec<u16> = Vec::new();
    let mut i: usize = 0;
    while i < response.hotbar.len()
        invariant
            i <= response.hotbar.len(),
            packed@.len() == i,
            forall|k: int| 0 <= k < i ==> packed@[k] == packed_hotbar_slot(response.hotbar@[k]),
        decreases response.hotbar.len() - i,
    {
        packed.push(encode_hotbar_slot(&response.hotbar[i]));
        i += 1;
    }
    assert(packed@ =~= packed_hotbar(response.hotbar@));
    writer.write_u16_list(&packed);
    writer.write_null_terminated_utf8(&response.name);
    assert(writer@.data =~= select_character(
        response.name@,
        response.gender,
        response.birth_stone,
        response.face,
        response.hair,
        response.position,
        response.equipment,
        response.basic_stats,
        response.level,
        response.skill_list@,
        response.hotbar@,
    ).data);
    writer.into_packet()
}

/// What a character owns, in a payload: the low and the high half of the
/// money in four bytes each, and the equipment.
pub open spec fn character_inventory(
    inventory: Inventory,
    equipment: crate::data::character::Equipment,
) -> PacketView {
    PacketView {
        command: ServerPackets::CharacterInventory.number(),
        data: put_u32((inventory.money % 0x1_0000_0000) as u32) + put_u32(
            (inventory.money / 0x1_0000_0000) as u32,
        ) + put_equipment(equipment),
    }
}

pub fn character_inventory_packet(response: &GameConnectionResponse) -> (packet: Packet)
    ensures
        packet@ == character_inventory(response.inventory, response.equipment),
{
    let mut writer = PacketWriter::new(ServerPackets::CharacterInventory.to_u16());
    writer.write_u32((response.inventory.money % 0x1_0000_0000) as u32);
    writer.write_u32((response.inventory.money / 0x1_0000_0000) as u32);
    write_equipment(&mut writer, &response.equipment);
    assert(writer@.data =~= character_inventory(response.inventory, response.equipment).data);
    writer.into_packet()
}

/// The quests of a character: the packet has no payload.
pub open spec fn character_quest_data() -> PacketView {
    PacketView { command: ServerPackets::QuestData.number(), data: Seq::empty() }
}

pub fn character_quest_data_packet() -> (packet: Packet)
    ensures
        packet@ == character_quest_data(),
{
    PacketWriter::new(ServerPackets::QuestData.to_u16()).into_packet()
}

/// The answer to the request to join a zone: the client id of the
/// character in two bytes and its level.
pub open spec fn join_zone(response: JoinZoneResponse) -> PacketView {
    PacketView {
        command: ServerPackets::JoinZone.number(),
        data: put_u16(response.entity_id) + put_level(response.level),
    }
}

pub fn join_zone_packet(response: &JoinZoneResponse) -> (packet: Packet)
    ensures
        packet@ == join_zone(*response),
{
    let mut writer = PacketWriter::new(ServerPackets::JoinZone.to_u16());
    writer.write_u16(response.entity_id);
    write_level(&mut writer, &response.level);
    assert(writer@.data =~= join_zone(*response).data);
    writer.into_packet()
}

/// The hotbar slot that was set: the index of the slot in one byte and the
/// slot in two.
pub open spec fn set_hotbar_slot(slot_index: u8, slot: Option<HotbarSlot>) -> PacketView {
    PacketView {
        command: ServerPackets::SetHotbarSlot.number(),
        data: seq![slot_index] + put_u16(packed_hotbar_slot(slot)),
    }
}

pub fn set_hotbar_slot_packet(slot_index: u8, slot: &Option<HotbarSlot>) -> (packet: Packet)
    ensures
        packet@ == set_hotbar_slot(slot_index, *slot),
{
    let mut writer = PacketWriter::new(ServerPackets::SetHotbarSlot.to_u16());
    writer.write_u8(slot_index);
    writer.write_u16(encode_hotbar_slot(slot));
    assert(writer@.data =~= set_hotbar_slot(slot_index, *slot).data);
    writer.into_packet()
}

/// An entity set out: its client id, that of its target and the distance
/// in two bytes each, the two coordinates of the point it goes to, and the
/// height in two bytes.
pub open spec fn move_entity(message: MoveEntity) -> PacketView {
    PacketView {
        command: ServerPackets::MoveEntity.number(),
        data: put_u16(message.entity_id) + put_u16(message.target_entity_id) + put_u16(
            message.distance,
        ) + put_units(message.x) + put_units(message.y) + put_u16(message.z),
    }
}

pub fn move_entity_packet(message: &MoveEntity) -> (packet: Packet)
    ensures
        packet@ == move_entity(*message),
{
    let mut writer = PacketWriter::new(ServerPackets::MoveEntity.to_u16());
    writer.write_u16(message.entity_id);
    writer.write_u16(message.target_entity_id);
    writer.write_u16(message.distance);
    writer.write_units(message.x);
    writer.write_units(message.y);
    writer.write_u16(message.z);
    assert(writer@.data =~= move_entity(*message).data);
    writer.into_packet()
}

/// An entity stopped: its client id in two bytes, the two coordinates of
/// where it stands, and the height in two bytes.
pub open spec fn stop_move_entity(message: StopMoveEntity) -> PacketView {
    PacketView {
        command: ServerPackets::StopMoveEntity.number(),
        data: put_u16(message.entity_id) + put_units(message.x) + put_units(message.y) + put_u16(
            message.z,
        ),
    }
}

pub fn stop_move_entity_packet(message: &StopMoveEntity) -> (packet: Packet)
    ensures
        packet@ == stop_move_entity(*message),
{
    let mut writer = PacketWriter::new(ServerPackets::StopMoveEntity.to_u16());
    writer.write_u16(message.entity_id);
    writer.write_units(message.x);
    writer.write_units(message.y);
    writer.write_u16(message.z);
    assert(writer@.data =~= stop_move_entity(*message).data);
    writer.into_packet()
}

/// An entity turned on a target: its client id, that of the target and the
/// distance in two bytes each, the two coordinates of where the target
/// stands, and the height in two bytes.
pub open spec fn attack_entity(message: AttackEntity) -> PacketView {
    PacketView {
        command: ServerPackets::AttackEntity.number(),
        data: put_u16(message.entity_id) + put_u16(message.target_entity_id) + put_u16(
            message.distance,
        ) + put_units(message.x) + put_units(message.y) + put_u16(message.z),
    }
}

pub fn attack_entity_packet(message: &AttackEntity) -> (packet: Packet)
    ensures
        packet@ == attack_entity(*message),
{
    let mut writer = PacketWriter::new(ServerPackets::AttackEntity.to_u16());
    writer.write_u16(message.entity_id);
    writer.write_u16(message.target_entity_id);
    writer.write_u16(message.distance);
    writer.write_units(message.x);
    writer.write_units(message.y);
    writer.write_u16(message.z);
    assert(writer@.data =~= attack_entity(*message).data);
    writer.into_packet()
}

/// An entity was put elsewhere: its client id and the zone in two bytes
/// each, the two coordinates, and the run mode and the ride mode in one
/// byte each.
pub open spec fn teleport(message: Teleport) -> PacketView {
    PacketView {
        command: ServerPackets::Teleport.number(),
        data: put_u16(message.entity_id) + put_u16(message.zone_no) + put_units(message.x)
            + put_units(message.y) + seq![message.run_mode, message.ride_mode],
    }
}

pub fn teleport_packet(message: &Teleport) -> (packet: Packet)
    ensures
        packet@ == teleport(*message),
{
    let mut writer = PacketWriter::new(ServerPackets::Teleport.to_u16());
    writer.write_u16(message.entity_id);
    writer.write_u16(message.zone_no);
    writer.write_units(message.x);
    writer.write_units(message.y);
    writer.write_u8(message.run_mode);
    writer.write_u8(message.ride_mode);
    assert(writer@.data =~= teleport(*message).data);
    writer.into_packet()
}

/// Something that an entity said to those around it: its client id in two
/// bytes and the text.
pub open spec fn local_chat(entity_id: u16, text: Seq<char>) -> PacketView {
    PacketView {
        command: ServerPackets::LocalChat.number(),
        data: put_u16(entity_id) + put_text(text),
    }
}

pub fn local_chat_packet(message: &LocalChat) -> (packet: Packet)
    ensures
        packet@ == local_chat(message.entity_id, message.text@),
{
    let mut writer = PacketWriter::new(ServerPackets::LocalChat.to_u16());
    writer.write_u16(message.entity_id);
    writer.write_null_terminated_utf8(&message.text);
    writer.into_packet()
}

/// Something that was said to one player: the name of who said it and the
/// text.
pub open spec fn whisper(from: Seq<char>, text: Seq<char>) -> PacketView {
    PacketView { command: ServerPackets::Whisper.number(), data: put_text(from) + put_text(text) }
}

pub fn whisper_packet(message: &Whisper) -> (packet: Packet)
    ensures
        packet@ == whisper(message.from@, message.text@),
{
    let mut writer = PacketWriter::new(ServerPackets::Whisper.to_u16());
    writer.write_null_terminated_utf8(&message.from);
    writer.write_null_terminated_utf8(&message.text);
    assert(writer@.data =~= whisper(message.from@, message.text@).data);
    writer.into_packet()
}

/// The kind of an NPC or monster in a payload: its number and the index
/// of its conversation in two bytes each.
pub open spec fn put_npc(npc: Npc) -> Seq<u8> {
    put_u16(npc.id.value()) + put_u16(npc.quest_index)
}

/// An NPC came into view: its client id in two bytes, its place and its
/// kind.
pub open spec fn spawn_entity_npc(message: SpawnEntityNpc) -> PacketView {
    PacketView {
        command: ServerPackets::SpawnEntityNpc.number(),
        data: put_u16(message.entity_id) + put_position(message.position) + put_npc(message.npc),
    }
}

pub fn spawn_entity_npc_packet(message: &SpawnEntityNpc) -> (packet: Packet)
    ensures
        packet@ == spawn_entity_npc(*message),
{
    let mut writer = PacketWriter::new(ServerPackets::SpawnEntityNpc.to_u16());
    writer.write_u16(message.entity_id);
    write_position(&mut writer, &message.position);
    writer.write_u16(message.npc.id.get());
    writer.write_u16(message.npc.quest_index);
    assert(writer@.data =~= spawn_entity_npc(*message).data);
    writer.into_packet()
}

/// A monster came into view: its client id in two bytes, its place and
/// its kind.
pub open spec fn spawn_entity_monster(message: SpawnEntityMonster) -> PacketView {
    PacketView {
        command: ServerPackets::SpawnEntityMonster.number(),
        data: put_u16(message.entity_id) + put_position(message.position) + put_npc(
            message.monster,
        ),
    }
}

pub fn spawn_entity_monster_packet(message: &SpawnEntityMonster) -> (packet: Packet)
    ensures
        packet@ == spawn_entity_monster(*message),
{
    let mut writer = PacketWriter::new(ServerPackets::SpawnEntityMonster.to_u16());
    writer.write_u16(message.entity_id);
    write_position(&mut writer, &message.position);
    writer.write_u16(message.monster.id.get());
    writer.write_u16(message.monster.quest_index);
    assert(writer@.data =~= spawn_entity_monster(*message).data);
    writer.into_packet()
}

/// The character of another player came into view: its client id in two
/// bytes and its place.
pub open spec fn spawn_entity_character(message: SpawnEntityCharacter) -> PacketView {
    PacketView {
        command: ServerPackets::SpawnEntityCharacter.number(),
        data: put_u16(message.entity_id) + put_position(message.position),
    }
}

pub fn spawn_entity_character_packet(message: &SpawnEntityCharacter) -> (packet: Packet)
    ensures
        packet@ == spawn_entity_character(*message),
{
    let mut writer = PacketWriter::new(ServerPackets::SpawnEntityCharacter.to_u16());
    writer.write_u16(message.entity_id);
    write_position(&mut writer, &message.position);
    writer.into_packet()
}

/// Entities went out of view: their client ids in two bytes each.
pub open spec fn remove_entities(entity_ids: Seq<u16>) -> PacketView {
    PacketView { command: ServerPackets::RemoveEntities.number(), data: put_u16_list(entity_ids) }
}

pub fn remove_entities_packet(message: &RemoveEntities) -> (packet: Packet)
    ensures
        packet@ == remove_entities(message.entity_ids@),
{
    let mut writer = PacketWriter::new(ServerPackets::RemoveEntities.to_u16());
    writer.write_u16_list(&message.entity_ids);
    assert(writer@.data =~= remove_entities(message.entity_ids@).data);
    writer.into_packet()
}

} // verus!
