//! The packets that the world tier sends to a client.

use crate::data::character::Equipment;
use crate::data::duration::Duration;
use crate::game::components::character_delete_time::CharacterDeleteTime;
use crate::game::messages::client::{CharacterListItem, CharacterListItemView};
use crate::protocol::packet::{Packet, PacketView};
use crate::protocol::writer::{put_text, put_u16, put_u32, PacketWriter};
use vstd::prelude::*;

verus! {

/// The commands of the world tier that the server can send.
#[derive(Copy, Clone, Debug, PartialEq, Eq, Structural)]
pub enum ServerPackets {
    ConnectReply,
    MoveServer,
    CharacterListReply,
    CreateCharacterReply,
    DeleteCharacterReply,
    ReturnToCharacterSelect,
}

impl ServerPackets {
    /// The number of the command on the wire.
    pub open spec fn number(self) -> u16 {
        match self {
            ServerPackets::ConnectReply => 0x70c,
            ServerPackets::MoveServer => 0x711,
            ServerPackets::CharacterListReply => 0x712,
            ServerPackets::CreateCharacterReply => 0x713,
            ServerPackets::DeleteCharacterReply => 0x714,
            ServerPackets::ReturnToCharacterSelect => 0x71c,
        }
    }

    /// The command with the number, if there is one.
    pub open spec fn with_number(command: u16) -> Option<ServerPackets> {
        match command {
            0x70c => Some(ServerPackets::ConnectReply),
            0x711 => Some(ServerPackets::MoveServer),
            0x712 => Some(ServerPackets::CharacterListReply),
            0x713 => Some(ServerPackets::CreateCharacterReply),
            0x714 => Some(ServerPackets::DeleteCharacterReply),
            0x71c => Some(ServerPackets::ReturnToCharacterSelect),
            _ => None,
        }
    }

    pub fn from_u16(command: u16) -> (known: Option<ServerPackets>)
        ensures
            known == Self::with_number(command),
    {
        match command {
            0x70c => Some(ServerPackets::ConnectReply),
            0x711 => Some(ServerPackets::MoveServer),
            0x712 => Some(ServerPackets::CharacterListReply),
            0x713 => Some(ServerPackets::CreateCharacterReply),
            0x714 => Some(ServerPackets::DeleteCharacterReply),
            0x71c => Some(ServerPackets::ReturnToCharacterSelect),
            _ => None,
        }
    }

    pub fn to_u16(&self) -> (command: u16)
        ensures
            command == self.number(),
    {
        match self {
            ServerPackets::ConnectReply => 0x70c,
            ServerPackets::MoveServer => 0x711,
            ServerPackets::CharacterListReply => 0x712,
            ServerPackets::CreateCharacterReply => 0x713,
            ServerPackets::DeleteCharacterReply => 0x714,
            ServerPackets::ReturnToCharacterSelect => 0x71c,
        }
    }

    /// The number of a command names that command, and a number that
    /// names a command is the number of that command.
    pub proof fn lemma_number_round_trip(self, command: u16)
        ensures
            Self::with_number(self.number()) == Some(self),
            Self::with_number(command) matches Some(known) ==> known.number() == command,
    {
    }
}

/// How a connection request ended.
#[derive(Copy, Clone, Debug, PartialEq, Eq, Structural)]
pub enum ConnectResult {
    Success,
    Failed,
    TimeOut,
    InvalidPassword,
    AlreadyLoggedIn,
}

impl ConnectResult {
    /// The number of the result on the wire.
    pub open spec fn number(self) -> u8 {
        match self {
            ConnectResult::Success => 0,
            ConnectResult::Failed => 1,
            ConnectResult::TimeOut => 2,
            ConnectResult::InvalidPassword => 3,
            ConnectResult::AlreadyLoggedIn => 4,
        }
    }

    pub fn to_u8(&self) -> (number: u8)
        ensures
            number == self.number(),
    {
        match self {
            ConnectResult::Success => 0,
            ConnectResult::Failed => 1,
            ConnectResult::TimeOut => 2,
            ConnectResult::InvalidPassword => 3,
            ConnectResult::AlreadyLoggedIn => 4,
        }
    }
}

/// The answer to a connection request.
#[derive(Copy, Clone, Debug, PartialEq, Eq, Structural)]
pub struct PacketConnectionReply {
    pub result: ConnectResult,
    pub packet_sequence_id: u32,
    pub pay_flags: u32,
}

impl PacketConnectionReply {
    /// The packet of the answer: the result in one byte, then the packet
    /// sequence id and the pay flags in four bytes each.
    pub open spec fn packet(self) -> PacketView {
        PacketView {
            command: ServerPackets::ConnectReply.number(),
            data: seq![self.result.number()] + put_u32(self.packet_sequence_id) + put_u32(
                self.pay_flags,
            ),
        }
    }

    pub fn to_packet(&self) -> (packet: Packet)
        ensures
            packet@ == self.packet(),
    {
        let mut writer = PacketWriter::new(ServerPackets::ConnectReply.to_u16());
        writer.write_u8(self.result.to_u8());
        writer.write_u32(self.packet_sequence_id);
        writer.write_u32(self.pay_flags);
        assert(writer@.data =~= self.packet().data);
        writer.into_packet()
    }
}

/// How the creation of a character ended.
#[derive(Copy, Clone, Debug, PartialEq, Eq, Structural)]
pub enum CreateCharacterResult {
    Success,
    Failed,
    NameAlreadyExists,
    InvalidValue,
    NoMoreSlots,
    Blocked,
}

impl CreateCharacterResult {
    /// The number of the result on the wire.
    pub open spec fn number(self) -> u8 {
        match self {
            CreateCharacterResult::Success => 0,
            CreateCharacterResult::Failed => 1,
            CreateCharacterResult::NameAlreadyExists => 2,
            CreateCharacterResult::InvalidValue => 3,
            CreateCharacterResult::NoMoreSlots => 4,
            CreateCharacterResult::Blocked => 5,
        }
    }

    pub fn to_u8(&self) -> (number: u8)
        ensures
            number == self.number(),
    {
        match self {
            CreateCharacterResult::Success => 0,
            CreateCharacterResult::Failed => 1,
            CreateCharacterResult::NameAlreadyExists => 2,
            CreateCharacterResult::InvalidValue => 3,
            CreateCharacterResult::NoMoreSlots => 4,
            CreateCharacterResult::Blocked => 5,
        }
    }
}

/// The answer to the request to create a character.
#[derive(Copy, Clone, Debug, PartialEq, Eq, Structural)]
pub struct PacketServerCreateCharacterReply {
    pub result: CreateCharacterResult,
    pub is_platinum: bool,
}

impl PacketServerCreateCharacterReply {
    /// The packet of the answer: the result in one byte and a byte that
    /// is 1 for a platinum slot.
    pub open spec fn packet(self) -> PacketView {
        PacketView {
            command: ServerPackets::CreateCharacterReply.number(),
            data: seq![self.result.number(), if self.is_platinum { 1u8 } else { 0u8 }],
        }
    }

    pub fn to_packet(&self) -> (packet: Packet)
        ensures
            packet@ == self.packet(),
    {
        let mut writer = PacketWriter::new(ServerPackets::CreateCharacterReply.to_u16());
        writer.write_u8(self.result.to_u8());
        writer.write_u8(if self.is_platinum { 1 } else { 0 });
        assert(writer@.data =~= self.packet().data);
        writer.into_packet()
    }
}

/// What stands in place of the seconds where a deletion failed.
pub const DELETE_FAILED: u32 = 0xffff_ffff;

/// The answer to the request to delete a character: the seconds until the
/// character is deleted, or nothing where the request failed, and the
/// name of the character.
#[derive(Debug)]
pub struct PacketServerDeleteCharacterReply<'a> {
    pub seconds_until_delete: Option<u32>,
    pub name: &'a String,
}

/// The packet of the answer to a deletion: the seconds in four bytes and
/// the name.
pub open spec fn delete_character_reply(seconds_until_delete: Option<u32>, name: Seq<char>)
    -> PacketView {
    PacketView {
        command: ServerPackets::DeleteCharacterReply.number(),
        data: put_u32(
            match seconds_until_delete {
                Some(seconds) => seconds,
                None => DELETE_FAILED,
            },
        ) + put_text(name),
    }
}

impl<'a> PacketServerDeleteCharacterReply<'a> {
    pub fn to_packet(&self) -> (packet: Packet)
        ensures
            packet@ == delete_character_reply(self.seconds_until_delete, self.name@),
    {
        let mut writer = PacketWriter::new(ServerPackets::DeleteCharacterReply.to_u16());
        writer.write_u32(
            match self.seconds_until_delete {
                Some(seconds) => seconds,
                None => DELETE_FAILED,
            },
        );
        writer.write_null_terminated_utf8(self.name);
        writer.into_packet()
    }
}

/// The order to continue on another server.
#[derive(Debug)]
pub struct PacketServerMoveServer<'a> {
    pub login_token: u32,
    pub packet_codec_seed: u32,
    pub ip: &'a String,
    pub port: u16,
}

/// The packet of the order to move: the port in two bytes, the login
/// token and the seed of the packet codec in four bytes each, and the
/// address.
pub open spec fn move_server(login_token: u32, packet_codec_seed: u32, ip: Seq<char>, port: u16)
    -> PacketView {
    PacketView {
        command: ServerPackets::MoveServer.number(),
        data: put_u16(port) + put_u32(login_token) + put_u32(packet_codec_seed) + put_text(ip),
    }
}

impl<'a> PacketServerMoveServer<'a> {
    pub fn to_packet(&self) -> (packet: Packet)
        ensures
            packet@ == move_server(self.login_token, self.packet_codec_seed, self.ip@, self.port),
    {
        let mut writer = PacketWriter::new(ServerPackets::MoveServer.to_u16());
        writer.write_u16(self.port);
        writer.write_u32(self.login_token);
        writer.write_u32(self.packet_codec_seed);
        writer.write_null_terminated_utf8(self.ip);
        assert(writer@.data =~= move_server(
            self.login_token,
            self.packet_codec_seed,
            self.ip@,
            self.port,
        ).data);
        writer.into_packet()
    }
}

/// The whole seconds that are left until a character is deleted at the
/// time `now`, 0 for a character that is not marked.
pub open spec fn seconds_until_delete(mark: Option<CharacterDeleteTime>, now: Duration) -> u32 {
    match mark {
        Some(mark) => (mark.nanos_until_delete(now) / 1_000_000_000) as u32,
        None => 0,
    }
}

pub fn to_seconds_until_delete(mark: &Option<CharacterDeleteTime>, now: &Duration) -> (seconds: u32)
    ensures
        seconds == seconds_until_delete(*mark, *now),
{
    match mark {
        Some(mark) => {
            let left: u64 = mark.get_time_until_delete(now).as_secs();
            assert(left <= 3600) by {
                assert(mark.nanos_until_delete(*now) <= CharacterDeleteTime::grace_nanos());
            }
            left as u32
        },
        None => 0,
    }
}

/// The equipment in a payload: the item number of each slot in four
/// bytes.
pub open spec fn put_equipment(equipment: Equipment) -> Seq<u8> {
    put_u32(equipment.face) + put_u32(equipment.head) + put_u32(equipment.body) + put_u32(
        equipment.hands,
    ) + put_u32(equipment.feet) + put_u32(equipment.back) + put_u32(equipment.weapon) + put_u32(
        equipment.sub_weapon,
    )
}

pub fn write_equipment(writer: &mut PacketWriter, equipment: &Equipment)
    ensures
        final(writer)@ == (PacketView {
            command: old(writer)@.command,
            data: old(writer)@.data + put_equipment(*equipment),
        }),
{
    writer.write_u32(equipment.face);
    writer.write_u32(equipment.head);
    writer.write_u32(equipment.body);
    writer.write_u32(equipment.hands);
    writer.write_u32(equipment.feet);
    writer.write_u32(equipment.back);
    writer.write_u32(equipment.weapon);
    writer.write_u32(equipment.sub_weapon);
    assert(writer@.data =~= old(writer)@.data + put_equipment(*equipment));
}

/// A line of the character selection in a payload: the name, the gender
/// in one byte, the level in two bytes, the seconds until deletion in four
/// bytes, face and hair in one byte each, and the equipment.
pub open spec fn put_list_item(item: CharacterListItemView, now: Duration) -> Seq<u8> {
    put_text(item.name) + seq![item.gender] + put_u16((item.level.level % 0x1_0000) as u16)
        + put_u32(seconds_until_delete(item.delete_time, now)) + seq![item.face, item.hair]
        + put_equipment(item.equipment)
}

/// The lines of the character selection in a payload, one after the
/// other.
pub open spec fn put_list_items(items: Seq<CharacterListItemView>, now: Duration) -> Seq<u8>
    decreases items.len(),
{
    if items.len() == 0 {
        Seq::empty()
    } else {
        put_list_items(items.drop_last(), now) + put_list_item(items.last(), now)
    }
}

/// The packet of the character selection: the number of characters in one
/// byte and a line for each.
pub open spec fn character_list(items: Seq<CharacterListItemView>, now: Duration) -> PacketView {
    PacketView {
        command: ServerPackets::CharacterListReply.number(),
        data: seq![(items.len() % 0x100) as u8] + put_list_items(items, now),
    }
}

/// The characters of an account for the character selection.
#[derive(Debug)]
pub struct PacketServerCharacterList<'a> {
    pub characters: &'a Vec<CharacterListItem>,
}

impl<'a> PacketServerCharacterList<'a> {
    /// The packet of the character selection at the time `now`.
    pub fn to_packet(&self, now: &Duration) -> (packet: Packet)
        ensures
            packet@ == character_list(
                crate::game::systems::world_server::items_view(self.characters@),
                *now,
            ),
    {
        let ghost items = crate::game::systems::world_server::items_view(self.characters@);
        let mut writer = PacketWriter::new(ServerPackets::CharacterListReply.to_u16());
        writer.write_u8((self.characters.len() % 0x100) as u8);
        let ghost head = writer@.data;
        let mut i: usize = 0;
        assert(items.take(0) =~= Seq::<CharacterListItemView>::empty());
        assert(head + put_list_items(items.take(0), *now) =~= head);
        while i < self.characters.len()
            invariant
                i <= self.characters.len(),
                items == crate::game::systems::world_server::items_view(self.characters@),
                writer@.command == ServerPackets::CharacterListReply.number(),
                writer@.data == head + put_list_items(items.take(i as int), *now),
            decreases self.characters.len() - i,
        {
            let item = &self.characters[i];
            let ghost before = writer@.data;
            proof {
                assert(items.take(i + 1).drop_last() =~= items.take(i as int));
                assert(items.take(i + 1).last() == item@);
            }
            writer.write_null_terminated_utf8(&item.name);
            writer.write_u8(item.gender);
            writer.write_u16((item.level.level % 0x1_0000) as u16);
            writer.write_u32(to_seconds_until_delete(&item.delete_time, now));
            writer.write_u8(item.face);
            writer.write_u8(item.hair);
            write_equipment(&mut writer, &item.equipment);
            assert(writer@.data =~= before + put_list_item(item@, *now));
            i += 1;
        }
        assert(items.take(self.characters.len() as int) =~= items);
        writer.into_packet()
    }
}

/// The order to go back to the character selection.
#[derive(Copy, Clone, Debug, PartialEq, Eq, Structural)]
pub struct PacketServerReturnToCharacterSelect {}

impl PacketServerReturnToCharacterSelect {
    /// The packet of the order: it has no payload.
    pub open spec fn packet(self) -> PacketView {
        PacketView { command: ServerPackets::ReturnToCharacterSelect.number(), data: Seq::empty() }
    }

    pub fn to_packet(&self) -> (packet: Packet)
        ensures
            packet@ == self.packet(),
    {
        PacketWriter::new(ServerPackets::ReturnToCharacterSelect.to_u16()).into_packet()
    }
}

} // verus!
