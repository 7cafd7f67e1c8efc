//! The packets that a client sends to the world tier.

use crate::protocol::packet::{Packet, PacketView, ProtocolError};
use crate::protocol::reader::{
    take_fixed_text, take_text, take_u16, take_u32, take_u8, PacketReader,
};
use crate::protocol::writer::{
    lemma_take_put_fixed_text, lemma_take_put_text, lemma_take_put_u16, lemma_take_put_u32,
    lemma_take_put_u8, put_text, put_u16, put_u32, PacketWriter,
};
use vstd::prelude::*;
use vstd::utf8::encode_utf8;

verus! {

/// The commands of the world tier that a client can send.
#[derive(Copy, Clone, Debug, PartialEq, Eq, Structural)]
pub enum ClientPackets {
    ConnectRequest,
    CharacterListRequest,
    CreateCharacter,
    DeleteCharacter,
    SelectCharacter,
}

impl ClientPackets {
    /// The number of the command on the wire.
    pub open spec fn number(self) -> u16 {
        match self {
            ClientPackets::ConnectRequest => 0x70b,
            ClientPackets::CharacterListRequest => 0x712,
            ClientPackets::CreateCharacter => 0x713,
            ClientPackets::DeleteCharacter => 0x714,
            ClientPackets::SelectCharacter => 0x715,
        }
    }

    /// The command with the number, if there is one.
    pub open spec fn with_number(command: u16) -> Option<ClientPackets> {
        match command {
            0x70b => Some(ClientPackets::ConnectRequest),
            0x712 => Some(ClientPackets::CharacterListRequest),
            0x713 => Some(ClientPackets::CreateCharacter),
            0x714 => Some(ClientPackets::DeleteCharacter),
            0x715 => Some(ClientPackets::SelectCharacter),
            _ => None,
        }
    }

    pub fn from_u16(command: u16) -> (known: Option<ClientPackets>)
        ensures
            known == Self::with_number(command),
    {
        match command {
            0x70b => Some(ClientPackets::ConnectRequest),
            0x712 => Some(ClientPackets::CharacterListRequest),
            0x713 => Some(ClientPackets::CreateCharacter),
            0x714 => Some(ClientPackets::DeleteCharacter),
            0x715 => Some(ClientPackets::SelectCharacter),
            _ => None,
        }
    }

    pub fn to_u16(&self) -> (command: u16)
        ensures
            command == self.number(),
    {
        match self {
            ClientPackets::ConnectRequest => 0x70b,
            ClientPackets::CharacterListRequest => 0x712,
            ClientPackets::CreateCharacter => 0x713,
            ClientPackets::DeleteCharacter => 0x714,
            ClientPackets::SelectCharacter => 0x715,
        }
    }

    /// The number of a command names that command, and a number that
    /// names a command is the number of that command.
    pub proof fn lemma_number_round_trip(self, command: u16)
        ensures
            Self::with_number(self.number()) == Some(self),
            Self::with_number(command) matches Some(known) ==> known.number() == command,
    {
    }
}

/// The length of the password digest of a connection request.
pub const PASSWORD_MD5_LENGTH: usize = 32;

/// The request to connect with a login token.
#[derive(Debug)]
pub struct PacketClientConnectRequest {
    pub login_token: u32,
    pub password_md5: String,
}

/// A connection request as a mathematical value.
pub struct ConnectRequestView {
    pub login_token: u32,
    pub password_md5: Seq<char>,
}

/// The connection request in a payload: the login token in four bytes and
/// the password digest in 32.
pub open spec fn parse_connect_request(data: Seq<u8>) -> Option<ConnectRequestView> {
    match take_u32(data) {
        None => None,
        Some(token) => match take_fixed_text(token.rest, PASSWORD_MD5_LENGTH as nat) {
            None => None,
            Some(password) => Some(
                ConnectRequestView { login_token: token.value, password_md5: password.value },
            ),
        },
    }
}

impl View for PacketClientConnectRequest {
    type V = ConnectRequestView;

    open spec fn view(&self) -> ConnectRequestView {
        ConnectRequestView { login_token: self.login_token, password_md5: self.password_md5@ }
    }
}

/// The payload of a connection request.
pub open spec fn connect_request_data(request: ConnectRequestView) -> Seq<u8> {
    put_u32(request.login_token) + encode_utf8(request.password_md5)
}

/// A connection request whose password digest takes up 32 bytes is read
/// back from its payload.
pub proof fn lemma_parse_connect_request(request: ConnectRequestView)
    requires
        encode_utf8(request.password_md5).len() == PASSWORD_MD5_LENGTH,
    ensures
        parse_connect_request(connect_request_data(request)) == Some(request),
{
    let digest = encode_utf8(request.password_md5);
    lemma_take_put_u32(request.login_token, digest);
    lemma_take_put_fixed_text(request.password_md5, Seq::empty());
    assert(digest + Seq::<u8>::empty() =~= digest);
}

impl PacketClientConnectRequest {
    /// The packet that makes the request.
    pub fn to_packet(&self) -> (packet: Packet)
        ensures
            packet@ == (PacketView {
                command: ClientPackets::ConnectRequest.number(),
                data: connect_request_data(self@),
            }),
    {
        let mut writer = PacketWriter::new(ClientPackets::ConnectRequest.to_u16());
        writer.write_u32(self.login_token);
        writer.write_utf8(&self.password_md5);
        assert(writer@.data =~= connect_request_data(self@));
        writer.into_packet()
    }

    pub fn try_from_packet(packet: &Packet) -> (parsed: Result<Self, ProtocolError>)
        ensures
            parsed.is_ok() == parse_connect_request(packet@.data).is_some(),
            parsed matches Ok(request) ==> parse_connect_request(packet@.data) == Some(
                ConnectRequestView {
                    login_token: request.login_token,
                    password_md5: request.password_md5@,
                },
            ),
            parsed matches Err(error) ==> error == ProtocolError::InvalidPacket,
    {
        let mut reader = PacketReader::from_packet(packet);
        let login_token = match reader.read_u32() {
            Ok(value) => value,
            Err(error) => {
                return Err(error);
            },
        };
        let password_md5 = match reader.read_fixed_length_utf8(PASSWORD_MD5_LENGTH) {
            Ok(value) => value,
            Err(error) => {
                return Err(error);
            },
        };
        Ok(PacketClientConnectRequest { login_token, password_md5 })
    }
}

/// The request to create a character.
#[derive(Debug)]
pub struct PacketClientCreateCharacter {
    pub gender: u8,
    pub birth_stone: u8,
    pub hair: u8,
    pub face: u8,
    pub start_point: u16,
    pub name: String,
}

/// A request to create a character as a mathematical value.
pub struct CreateCharacterView {
    pub gender: u8,
    pub birth_stone: u8,
    pub hair: u8,
    pub face: u8,
    pub start_point: u16,
    pub name: Seq<char>,
}

/// The request to create a character in a payload: gender, birth stone,
/// hair and face in one byte each, a byte that is not used, the start
/// point in two bytes, and the name.
pub open spec fn parse_create_character(data: Seq<u8>) -> Option<CreateCharacterView> {
    match take_u8(data) {
        None => None,
        Some(gender) => match take_u8(gender.rest) {
            None => None,
            Some(birth_stone) => match take_u8(birth_stone.rest) {
                None => None,
                Some(hair) => match take_u8(hair.rest) {
                    None => None,
                    Some(face) => match take_u8(face.rest) {
                        None => None,
                        Some(unused) => match take_u16(unused.rest) {
                            None => None,
                            Some(start_point) => match take_text(start_point.rest) {
                                None => None,
                                Some(name) => Some(
                                    CreateCharacterView {
                                        gender: gender.value,
                                        birth_stone: birth_stone.value,
                                        hair: hair.value,
                                        face: face.value,
                                        start_point: start_point.value,
                                        name: name.value,
                                    },
                                ),
                            },
                        },
                    },
                },
            },
        },
    }
}

impl View for PacketClientCreateCharacter {
    type V = CreateCharacterView;

    open spec fn view(&self) -> CreateCharacterView {
        CreateCharacterView {
            gender: self.gender,
            birth_stone: self.birth_stone,
            hair: self.hair,
            face: self.face,
            start_point: self.start_point,
            name: self.name@,
        }
    }
}

/// Whether the text has no character zero, which would end it on the
/// wire.
pub open spec fn is_wire_text(text: Seq<char>) -> bool {
    forall|i: int| 0 <= i < text.len() ==> text[i] as u32 != 0
}

/// The payload of a request to create a character. The byte that is not
/// used is written as 0.
pub open spec fn create_character_data(request: CreateCharacterView) -> Seq<u8> {
    seq![request.gender, request.birth_stone, request.hair, request.face, 0u8] + put_u16(
        request.start_point,
    ) + put_text(request.name)
}

/// A request to create a character is read back from its payload.
pub proof fn lemma_parse_create_character(request: CreateCharacterView)
    requires
        is_wire_text(request.name),
    ensures
        parse_create_character(create_character_data(request)) == Some(request),
{
    let name = put_text(request.name);
    let tail = put_u16(request.start_point) + name;
    let data = create_character_data(request);
    let after_gender = seq![request.birth_stone, request.hair, request.face, 0u8] + tail;
    let after_birth_stone = seq![request.hair, request.face, 0u8] + tail;
    let after_hair = seq![request.face, 0u8] + tail;
    let after_face = seq![0u8] + tail;
    assert(data =~= seq![request.gender] + after_gender);
    assert(after_gender =~= seq![request.birth_stone] + after_birth_stone);
    assert(after_birth_stone =~= seq![request.hair] + after_hair);
    assert(after_hair =~= seq![request.face] + after_face);
    lemma_take_put_u8(request.gender, after_gender);
    lemma_take_put_u8(request.birth_stone, after_birth_stone);
    lemma_take_put_u8(request.hair, after_hair);
    lemma_take_put_u8(request.face, after_face);
    lemma_take_put_u8(0u8, tail);
    lemma_take_put_u16(request.start_point, name);
    lemma_take_put_text(request.name, Seq::empty());
    assert(name + Seq::<u8>::empty() =~= name);
}

impl PacketClientCreateCharacter {
    /// The packet that makes the request.
    pub fn to_packet(&self) -> (packet: Packet)
        ensures
            packet@ == (PacketView {
                command: ClientPackets::CreateCharacter.number(),
                data: create_character_data(self@),
            }),
    {
        let mut writer = PacketWriter::new(ClientPackets::CreateCharacter.to_u16());
        writer.write_u8(self.gender);
        writer.write_u8(self.birth_stone);
        writer.write_u8(self.hair);
        writer.write_u8(self.face);
        writer.write_u8(0);
        writer.write_u16(self.start_point);
        writer.write_null_terminated_utf8(&self.name);
        assert(writer@.data =~= create_character_data(self@));
        writer.into_packet()
    }

    pub fn try_from_packet(packet: &Packet) -> (parsed: Result<Self, ProtocolError>)
        ensures
            parsed.is_ok() == parse_create_character(packet@.data).is_some(),
            parsed matches Ok(request) ==> parse_create_character(packet@.data) == Some(
                CreateCharacterView {
                    gender: request.gender,
                    birth_stone: request.birth_stone,
                    hair: request.hair,
                    face: request.face,
                    start_point: request.start_point,
                    name: request.name@,
                },
            ),
            parsed matches Err(error) ==> error == ProtocolError::InvalidPacket,
    {
        let mut reader = PacketReader::from_packet(packet);
        let gender = match reader.read_u8() {
            Ok(value) => value,
            Err(error) => {
                return Err(error);
            },
        };
        let birth_stone = match reader.read_u8() {
            Ok(value) => value,
            Err(error) => {
                return Err(error);
            },
        };
        let hair = match reader.read_u8() {
            Ok(value) => value,
            Err(error) => {
                return Err(error);
            },
        };
        let face = match reader.read_u8() {
            Ok(value) => value,
            Err(error) => {
                return Err(error);
            },
        };
        match reader.read_u8() {
            Ok(_) => {},
            Err(error) => {
                return Err(error);
            },
        }
        let start_point = match reader.read_u16() {
            Ok(value) => value,
            Err(error) => {
                return Err(error);
            },
        };
        let name = match reader.read_null_terminated_utf8() {
            Ok(value) => value,
            Err(error) => {
                return Err(error);
            },
        };
        Ok(PacketClientCreateCharacter { gender, birth_stone, hair, face, start_point, name })
    }
}

/// The request to mark a character for deletion or to take the mark back.
#[derive(Debug)]
pub struct PacketClientDeleteCharacter {
    pub slot: u8,
    pub is_delete: bool,
    pub name: String,
}

/// A request to delete a character as a mathematical value.
pub struct DeleteCharacterView {
    pub slot: u8,
    pub is_delete: bool,
    pub name: Seq<char>,
}

/// The request to delete a character in a payload: the slot in one byte,
/// a byte that is 0 where the mark is to be taken back, and the name.
pub open spec fn parse_delete_character(data: Seq<u8>) -> Option<DeleteCharacterView> {
    match take_u8(data) {
        None => None,
        Some(slot) => match take_u8(slot.rest) {
            None => None,
            Some(is_delete) => match take_text(is_delete.rest) {
                None => None,
                Some(name) => Some(
                    DeleteCharacterView {
                        slot: slot.value,
                        is_delete: is_delete.value != 0,
                        name: name.value,
                    },
                ),
            },
        },
    }
}

impl View for PacketClientDeleteCharacter {
    type V = DeleteCharacterView;

    open spec fn view(&self) -> DeleteCharacterView {
        DeleteCharacterView { slot: self.slot, is_delete: self.is_delete, name: self.name@ }
    }
}

/// The payload of a request to delete a character.
pub open spec fn delete_character_data(request: DeleteCharacterView) -> Seq<u8> {
    seq![request.slot, if request.is_delete { 1u8 } else { 0u8 }] + put_text(request.name)
}

/// A request to delete a character is read back from its payload.
pub proof fn lemma_parse_delete_character(request: DeleteCharacterView)
    requires
        is_wire_text(request.name),
    ensures
        parse_delete_character(delete_character_data(request)) == Some(request),
{
    let name = put_text(request.name);
    let flag = if request.is_delete { 1u8 } else { 0u8 };
    let after_slot = seq![flag] + name;
    assert(delete_character_data(request) =~= seq![request.slot] + after_slot);
    lemma_take_put_u8(request.slot, after_slot);
    lemma_take_put_u8(flag, name);
    lemma_take_put_text(request.name, Seq::empty());
    assert(name + Seq::<u8>::empty() =~= name);
}

impl PacketClientDeleteCharacter {
    /// The packet that makes the request.
    pub fn to_packet(&self) -> (packet: Packet)
        ensures
            packet@ == (PacketView {
                command: ClientPackets::DeleteCharacter.number(),
                data: delete_character_data(self@),
            }),
    {
        let mut writer = PacketWriter::new(ClientPackets::DeleteCharacter.to_u16());
        writer.write_u8(self.slot);
        writer.write_u8(if self.is_delete { 1 } else { 0 });
        writer.write_null_terminated_utf8(&self.name);
        assert(writer@.data =~= delete_character_data(self@));
        writer.into_packet()
    }

    pub fn try_from_packet(packet: &Packet) -> (parsed: Result<Self, ProtocolError>)
        ensures
            parsed.is_ok() == parse_delete_character(packet@.data).is_some(),
            parsed matches Ok(request) ==> parse_delete_character(packet@.data) == Some(
                DeleteCharacterView {
                    slot: request.slot,
                    is_delete: request.is_delete,
                    name: request.name@,
                },
            ),
            parsed matches Err(error) ==> error == ProtocolError::InvalidPacket,
    {
        let mut reader = PacketReader::from_packet(packet);
        let slot = match reader.read_u8() {
            Ok(value) => value,
            Err(error) => {
                return Err(error);
            },
        };
        let is_delete = match reader.read_u8() {
            Ok(value) => value,
            Err(error) => {
                return Err(error);
            },
        };
        let name = match reader.read_null_terminated_utf8() {
            Ok(value) => value,
            Err(error) => {
                return Err(error);
            },
        };
        Ok(PacketClientDeleteCharacter { slot, is_delete: is_delete != 0, name })
    }
}

/// The request to enter the game with a character.
#[derive(Debug)]
pub struct PacketClientSelectCharacter {
    pub slot: u8,
    pub run_mode: u8,
    pub ride_mode: u8,
    pub name: String,
}

/// A request to select a character as a mathematical value.
pub struct SelectCharacterView {
    pub slot: u8,
    pub run_mode: u8,
    pub ride_mode: u8,
    pub name: Seq<char>,
}

/// The request to select a character in a payload: the slot, the run mode
/// and the ride mode in one byte each, and the name.
pub open spec fn parse_select_character(data: Seq<u8>) -> Option<SelectCharacterView> {
    match take_u8(data) {
        None => None,
        Some(slot) => match take_u8(slot.rest) {
            None => None,
            Some(run_mode) => match take_u8(run_mode.rest) {
                None => None,
                Some(ride_mode) => match take_text(ride_mode.rest) {
                    None => None,
                    Some(name) => Some(
                        SelectCharacterView {
                            slot: slot.value,
                            run_mode: run_mode.value,
                            ride_mode: ride_mode.value,
                            name: name.value,
                        },
                    ),
                },
            },
        },
    }
}

impl View for PacketClientSelectCharacter {
    type V = SelectCharacterView;

    open spec fn view(&self) -> SelectCharacterView {
        SelectCharacterView {
            slot: self.slot,
            run_mode: self.run_mode,
            ride_mode: self.ride_mode,
            name: self.name@,
        }
    }
}

/// The payload of a request to select a character.
pub open spec fn select_character_data(request: SelectCharacterView) -> Seq<u8> {
    seq![request.slot, request.run_mode, request.ride_mode] + put_text(request.name)
}

/// A request to select a character is read back from its payload.
pub proof fn lemma_parse_select_character(request: SelectCharacterView)
    requires
        is_wire_text(request.name),
    ensures
        parse_select_character(select_character_data(request)) == Some(request),
{
    let name = put_text(request.name);
    let after_slot = seq![request.run_mode, request.ride_mode] + name;
    let after_run_mode = seq![request.ride_mode] + name;
    assert(select_character_data(request) =~= seq![request.slot] + after_slot);
    assert(after_slot =~= seq![request.run_mode] + after_run_mode);
    lemma_take_put_u8(request.slot, after_slot);
    lemma_take_put_u8(request.run_mode, after_run_mode);
    lemma_take_put_u8(request.ride_mode, name);
    lemma_take_put_text(request.name, Seq::empty());
    assert(name + Seq::<u8>::empty() =~= name);
}

impl PacketClientSelectCharacter {
    /// The packet that makes the request.
    pub fn to_packet(&self) -> (packet: Packet)
        ensures
            packet@ == (PacketView {
                command: ClientPackets::SelectCharacter.number(),
                data: select_character_data(self@),
            }),
    {
        let mut writer = PacketWriter::new(ClientPackets::SelectCharacter.to_u16());
        writer.write_u8(self.slot);
        writer.write_u8(self.run_mode);
        writer.write_u8(self.ride_mode);
        writer.write_null_terminated_utf8(&self.name);
        assert(writer@.data =~= select_character_data(self@));
        writer.into_packet()
    }

    pub fn try_from_packet(packet: &Packet) -> (parsed: Result<Self, ProtocolError>)
        ensures
            parsed.is_ok() == parse_select_character(packet@.data).is_some(),
            parsed matches Ok(request) ==> parse_select_character(packet@.data) == Some(
                SelectCharacterView {
                    slot: request.slot,
                    run_mode: request.run_mode,
                    ride_mode: request.ride_mode,
                    name: request.name@,
                },
            ),
            parsed matches Err(error) ==> error == ProtocolError::InvalidPacket,
    {
        let mut reader = PacketReader::from_packet(packet);
        let slot = match reader.read_u8() {
            Ok(value) => value,
            Err(error) => {
                return Err(error);
            },
        };
        let run_mode = match reader.read_u8() {
            Ok(value) => value,
            Err(error) => {
                return Err(error);
            },
        };
        let ride_mode = match reader.read_u8() {
            Ok(value) => value,
            Err(error) => {
                return Err(error);
            },
        };
        let name = match reader.read_null_terminated_utf8() {
            Ok(value) => value,
            Err(error) => {
                return Err(error);
            },
        };
        Ok(PacketClientSelectCharacter { slot, run_mode, ride_mode, name })
    }
}

} // verus!
