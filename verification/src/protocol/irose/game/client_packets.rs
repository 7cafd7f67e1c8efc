//! The packets that a client sends to the game tier.

use crate::data::character::HotbarSlot;
use crate::irose::protocol::world::client_packets::is_wire_text;
use crate::protocol::irose::game::common_packets::{
    decode_hotbar_slot, encode_hotbar_slot, hotbar_slot_of, lemma_hotbar_slot_round_trip,
    packed_hotbar_slot, slot_parts, HOTBAR_INDEX_RANGE,
};
use crate::protocol::packet::{Packet, PacketView, ProtocolError};
use crate::protocol::reader::{take_text, take_u16, take_u8, take_units, PacketReader};
use crate::protocol::writer::{
    lemma_take_put_text, lemma_take_put_u16, lemma_take_put_u8, lemma_take_put_units, put_text,
    put_u16, put_units, PacketWriter,
};
use vstd::prelude::*;

verus! {

/// The commands of the game tier that a client can send.
#[derive(Copy, Clone, Debug, PartialEq, Eq, Structural)]
pub enum ClientPackets {
    ConnectRequest,
    JoinZone,
    Chat,
    Move,
    SetHotbarSlot,
}

impl ClientPackets {
    /// The number of the command on the wire.
    pub open spec fn number(self) -> u16 {
        match self {
            ClientPackets::ConnectRequest => 0x70b,
            ClientPackets::JoinZone => 0x753,
            ClientPackets::Chat => 0x783,
            ClientPackets::Move => 0x79a,
            ClientPackets::SetHotbarSlot => 0x7aa,
        }
    }

    /// The command with the number, if there is one.
    pub open spec fn with_number(command: u16) -> Option<ClientPackets> {
        match command {
            0x70b => Some(ClientPackets::ConnectRequest),
            0x753 => Some(ClientPackets::JoinZone),
            0x783 => Some(ClientPackets::Chat),
            0x79a => Some(ClientPackets::Move),
            0x7aa => Some(ClientPackets::SetHotbarSlot),
            _ => None,
        }
    }

    pub fn from_u16(command: u16) -> (known: Option<ClientPackets>)
        ensures
            known == Self::with_number(command),
    {
        match command {
            0x70b => Some(ClientPackets::ConnectRequest),
            0x753 => Some(ClientPackets::JoinZone),
            0x783 => Some(ClientPackets::Chat),
            0x79a => Some(ClientPackets::Move),
            0x7aa => Some(ClientPackets::SetHotbarSlot),
            _ => None,
        }
    }

    pub fn to_u16(&self) -> (command: u16)
        ensures
            command == self.number(),
    {
        match self {
            ClientPackets::ConnectRequest => 0x70b,
            ClientPackets::JoinZone => 0x753,
            ClientPackets::Chat => 0x783,
            ClientPackets::Move => 0x79a,
            ClientPackets::SetHotbarSlot => 0x7aa,
        }
    }

    /// The number of a command names that command, and a number that
    /// names a command is the number of that command.
    pub proof fn lemma_number_round_trip(self, command: u16)
        ensures
            Self::with_number(self.number()) == Some(self),
            Self::with_number(command) matches Some(known) ==> known.number() == command,
    {
    }
}

/// The request to join the zone of the character.
#[derive(Copy, Clone, Debug, PartialEq, Eq, Structural)]
pub struct PacketClientJoinZone {
    pub weight_rate: u8,
    pub z: u16,
}

/// The request to join a zone in a payload: the weight rate in one byte
/// and the height in two.
pub open spec fn parse_join_zone(data: Seq<u8>) -> Option<PacketClientJoinZone> {
    match take_u8(data) {
        None => None,
        Some(weight_rate) => match take_u16(weight_rate.rest) {
            None => None,
            Some(z) => Some(PacketClientJoinZone { weight_rate: weight_rate.value, z: z.value }),
        },
    }
}

/// The payload of a request to join a zone.
pub open spec fn join_zone_data(request: PacketClientJoinZone) -> Seq<u8> {
    seq![request.weight_rate] + put_u16(request.z)
}

/// A request to join a zone is read back from its payload.
pub proof fn lemma_parse_join_zone(request: PacketClientJoinZone)
    ensures
        parse_join_zone(join_zone_data(request)) == Some(request),
{
    lemma_take_put_u8(request.weight_rate, put_u16(request.z));
    lemma_take_put_u16(request.z, Seq::empty());
    assert(put_u16(request.z) + Seq::<u8>::empty() =~= put_u16(request.z));
}

impl PacketClientJoinZone {
    /// The packet that makes the request.
    pub fn to_packet(&self) -> (packet: Packet)
        ensures
            packet@ == (PacketView {
                command: ClientPackets::JoinZone.number(),
                data: join_zone_data(*self),
            }),
    {
        let mut writer = PacketWriter::new(ClientPackets::JoinZone.to_u16());
        writer.write_u8(self.weight_rate);
        writer.write_u16(self.z);
        assert(writer@.data =~= join_zone_data(*self));
        writer.into_packet()
    }

    pub fn try_from_packet(packet: &Packet) -> (parsed: Result<Self, ProtocolError>)
        ensures
            match parse_join_zone(packet@.data) {
                Some(request) => parsed == Ok::<Self, ProtocolError>(request),
                None => parsed == Err::<Self, ProtocolError>(ProtocolError::InvalidPacket),
            },
    {
        let mut reader = PacketReader::from_packet(packet);
        let weight_rate = match reader.read_u8() {
            Ok(value) => value,
            Err(error) => {
                return Err(error);
            },
        };
        let z = match reader.read_u16() {
            Ok(value) => value,
            Err(error) => {
                return Err(error);
            },
        };
        Ok(PacketClientJoinZone { weight_rate, z })
    }
}

/// Something that the character says.
#[derive(Debug)]
pub struct PacketClientChat {
    pub text: String,
}

/// What is said in a payload: the text.
pub open spec fn parse_chat(data: Seq<u8>) -> Option<Seq<char>> {
    match take_text(data) {
        None => None,
        Some(text) => Some(text.value),
    }
}

/// The payload of what a character says.
pub open spec fn chat_data(text: Seq<char>) -> Seq<u8> {
    put_text(text)
}

/// What a character says is read back from its payload.
pub proof fn lemma_parse_chat(text: Seq<char>)
    requires
        is_wire_text(text),
    ensures
        parse_chat(chat_data(text)) == Some(text),
{
    lemma_take_put_text(text, Seq::empty());
    assert(put_text(text) + Seq::<u8>::empty() =~= put_text(text));
}

impl PacketClientChat {
    /// The packet that says the text.
    pub fn to_packet(&self) -> (packet: Packet)
        ensures
            packet@ == (PacketView {
                command: ClientPackets::Chat.number(),
                data: chat_data(self.text@),
            }),
    {
        let mut writer = PacketWriter::new(ClientPackets::Chat.to_u16());
        writer.write_null_terminated_utf8(&self.text);
        assert(writer@.data =~= chat_data(self.text@));
        writer.into_packet()
    }

    pub fn try_from_packet(packet: &Packet) -> (parsed: Result<Self, ProtocolError>)
        ensures
            parsed.is_ok() == parse_chat(packet@.data).is_some(),
            parsed matches Ok(chat) ==> parse_chat(packet@.data) == Some(chat.text@),
            parsed matches Err(error) ==> error == ProtocolError::InvalidPacket,
    {
        let mut reader = PacketReader::from_packet(packet);
        match reader.read_null_terminated_utf8() {
            Ok(text) => Ok(PacketClientChat { text }),
            Err(error) => Err(error),
        }
    }
}

/// The request to walk to a point, towards the entity with the client id
/// where that is not 0. The point is in whole units.
#[derive(Copy, Clone, Debug, PartialEq, Eq, Structural)]
pub struct PacketClientMove {
    pub target_entity_id: u16,
    pub x: i32,
    pub y: i32,
    pub z: u16,
}

/// The request to move in a payload: the client id of the target in two
/// bytes, the two coordinates of the ground plane, and the height in two
/// bytes.
pub open spec fn parse_move(data: Seq<u8>) -> Option<PacketClientMove> {
    match take_u16(data) {
        None => None,
        Some(target) => match take_units(target.rest) {
            None => None,
            Some(x) => match take_units(x.rest) {
                None => None,
                Some(y) => match take_u16(y.rest) {
                    None => None,
                    Some(z) => Some(
                        PacketClientMove {
                            target_entity_id: target.value,
                            x: x.value,
                            y: y.value,
                            z: z.value,
                        },
                    ),
                },
            },
        },
    }
}

/// The largest coordinate, to either side, that the wire carries
/// exactly.
pub const MAX_EXACT_COORDINATE: i32 = 0x100_0000;

/// The payload of a request to move.
pub open spec fn move_data(request: PacketClientMove) -> Seq<u8> {
    put_u16(request.target_entity_id) + put_units(request.x) + put_units(request.y) + put_u16(
        request.z,
    )
}

/// A request to move to a point whose coordinates the wire carries
/// exactly is read back from its payload.
pub proof fn lemma_parse_move(request: PacketClientMove)
    requires
        -MAX_EXACT_COORDINATE <= request.x <= MAX_EXACT_COORDINATE,
        -MAX_EXACT_COORDINATE <= request.y <= MAX_EXACT_COORDINATE,
    ensures
        parse_move(move_data(request)) == Some(request),
{
    let z = put_u16(request.z);
    let after_x = put_units(request.y) + z;
    let after_target = put_units(request.x) + after_x;
    assert(move_data(request) =~= put_u16(request.target_entity_id) + after_target);
    lemma_take_put_u16(request.target_entity_id, after_target);
    lemma_take_put_units(request.x, after_x);
    lemma_take_put_units(request.y, z);
    lemma_take_put_u16(request.z, Seq::empty());
    assert(z + Seq::<u8>::empty() =~= z);
}

impl PacketClientMove {
    /// The packet that makes the request.
    pub fn to_packet(&self) -> (packet: Packet)
        ensures
            packet@ == (PacketView { command: ClientPackets::Move.number(), data: move_data(*self) }),
    {
        let mut writer = PacketWriter::new(ClientPackets::Move.to_u16());
        writer.write_u16(self.target_entity_id);
        writer.write_units(self.x);
        writer.write_units(self.y);
        writer.write_u16(self.z);
        assert(writer@.data =~= move_data(*self));
        writer.into_packet()
    }

    pub fn try_from_packet(packet: &Packet) -> (parsed: Result<Self, ProtocolError>)
        ensures
            match parse_move(packet@.data) {
                Some(request) => parsed == Ok::<Self, ProtocolError>(request),
                None => parsed == Err::<Self, ProtocolError>(ProtocolError::InvalidPacket),
            },
    {
        let mut reader = PacketReader::from_packet(packet);
        let target_entity_id = match reader.read_u16() {
            Ok(value) => value,
            Err(error) => {
                return Err(error);
            },
        };
        let x = match reader.read_units() {
            Ok(value) => value,
            Err(error) => {
                return Err(error);
            },
        };
        let y = match reader.read_units() {
            Ok(value) => value,
            Err(error) => {
                return Err(error);
            },
        };
        let z = match reader.read_u16() {
            Ok(value) => value,
            Err(error) => {
                return Err(error);
            },
        };
        Ok(PacketClientMove { target_entity_id, x, y, z })
    }
}

/// The request to put something in a slot of the hotbar, or to empty the
/// slot.
#[derive(Copy, Clone, Debug, PartialEq, Eq, Structural)]
pub struct PacketClientSetHotbarSlot {
    pub slot_index: u8,
    pub slot: Option<HotbarSlot>,
}

/// The request to set a hotbar slot in a payload: the index of the slot
/// in one byte and the slot in two.
pub open spec fn parse_set_hotbar_slot(data: Seq<u8>) -> Option<PacketClientSetHotbarSlot> {
    match take_u8(data) {
        None => None,
        Some(slot_index) => match take_u16(slot_index.rest) {
            None => None,
            Some(packed) => match hotbar_slot_of(packed.value) {
                None => None,
                Some(slot) => Some(PacketClientSetHotbarSlot { slot_index: slot_index.value, slot }),
            },
        },
    }
}

/// The payload of a request to set a hotbar slot.
pub open spec fn set_hotbar_slot_data(request: PacketClientSetHotbarSlot) -> Seq<u8> {
    seq![request.slot_index] + put_u16(packed_hotbar_slot(request.slot))
}

/// Whether the index of what is put in the slot fits the wire.
pub open spec fn is_wire_slot(slot: Option<crate::data::character::HotbarSlot>) -> bool {
    slot matches Some(filled) ==> slot_parts(filled).1 < HOTBAR_INDEX_RANGE
}

/// A request to set a hotbar slot is read back from its payload.
pub proof fn lemma_parse_set_hotbar_slot(request: PacketClientSetHotbarSlot)
    requires
        is_wire_slot(request.slot),
    ensures
        parse_set_hotbar_slot(set_hotbar_slot_data(request)) == Some(request),
{
    let packed = put_u16(packed_hotbar_slot(request.slot));
    lemma_take_put_u8(request.slot_index, packed);
    lemma_take_put_u16(packed_hotbar_slot(request.slot), Seq::empty());
    assert(packed + Seq::<u8>::empty() =~= packed);
    lemma_hotbar_slot_round_trip(request.slot);
}

impl PacketClientSetHotbarSlot {
    /// The packet that makes the request.
    pub fn to_packet(&self) -> (packet: Packet)
        ensures
            packet@ == (PacketView {
                command: ClientPackets::SetHotbarSlot.number(),
                data: set_hotbar_slot_data(*self),
            }),
    {
        let mut writer = PacketWriter::new(ClientPackets::SetHotbarSlot.to_u16());
        writer.write_u8(self.slot_index);
        writer.write_u16(encode_hotbar_slot(&self.slot));
        assert(writer@.data =~= set_hotbar_slot_data(*self));
        writer.into_packet()
    }

    pub fn try_from_packet(packet: &Packet) -> (parsed: Result<Self, ProtocolError>)
        ensures
            match parse_set_hotbar_slot(packet@.data) {
                Some(request) => parsed == Ok::<Self, ProtocolError>(request),
                None => parsed == Err::<Self, ProtocolError>(ProtocolError::InvalidPacket),
            },
    {
        let mut reader = PacketReader::from_packet(packet);
        let slot_index = match reader.read_u8() {
            Ok(value) => value,
            Err(error) => {
                return Err(error);
            },
        };
        let packed = match reader.read_u16() {
            Ok(value) => value,
            Err(error) => {
                return Err(error);
            },
        };
        match decode_hotbar_slot(packed) {
            Some(slot) => Ok(PacketClientSetHotbarSlot { slot_index, slot }),
            None => Err(ProtocolError::InvalidPacket),
        }
    }
}

} // verus!
