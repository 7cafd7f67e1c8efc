//! What connections ask of the simulation, and the answers it gives.

use crate::data::character::{
    BasicStats, CharacterRecord, CharacterStorage, Equipment, HotbarSlot, Inventory, Level,
};
use crate::game::components::character_delete_time::CharacterDeleteTime;
use crate::game::components::position::Position;
use vstd::prelude::*;

verus! {

#[derive(Debug)]
pub struct ConnectionRequest {
    pub login_token: u32,
    pub password_md5: String,
}

#[derive(Copy, Clone, Debug, PartialEq, Eq, Structural)]
pub struct ConnectionRequestResponse {
    pub packet_sequence_id: u32,
}

#[derive(Copy, Clone, Debug, PartialEq, Eq, Structural)]
pub enum ConnectionRequestError {
    Failed,
    InvalidToken,
    InvalidPassword,
}

#[derive(Debug)]
pub struct LoginRequest {
    pub username: String,
    pub password_md5: String,
}

#[derive(Copy, Clone, Debug, PartialEq, Eq, Structural)]
pub enum LoginError {
    Failed,
    InvalidAccount,
    InvalidPassword,
}

#[derive(Copy, Clone, Debug, PartialEq, Eq, Structural)]
pub struct GetChannelList {
    pub server_id: u32,
}

#[derive(Copy, Clone, Debug, PartialEq, Eq, Structural)]
pub enum GetChannelListError {
    InvalidServerId,
}

#[derive(Copy, Clone, Debug, PartialEq, Eq, Structural)]
pub struct JoinServer {
    pub server_id: u32,
    pub channel_id: u8,
}

#[derive(Copy, Clone, Debug, PartialEq, Eq, Structural)]
pub enum JoinServerError {
    InvalidServerId,
    InvalidChannelId,
}

/// Where a connection continues: the server to connect to and the token
/// to present there.
#[derive(Debug)]
pub struct JoinServerResponse {
    pub login_token: u32,
    pub packet_codec_seed: u32,
    pub ip: String,
    pub port: u16,
}

/// Where a connection continues, as a mathematical value.
pub struct JoinServerResponseView {
    pub login_token: u32,
    pub packet_codec_seed: u32,
    pub ip: Seq<char>,
    pub port: u16,
}

impl View for JoinServerResponse {
    type V = JoinServerResponseView;

    open spec fn view(&self) -> JoinServerResponseView {
        JoinServerResponseView {
            login_token: self.login_token,
            packet_codec_seed: self.packet_codec_seed,
            ip: self.ip@,
            port: self.port,
        }
    }
}

/// What the character selection shows of one character.
#[derive(Debug)]
pub struct CharacterListItem {
    pub name: String,
    pub gender: u8,
    pub face: u8,
    pub hair: u8,
    pub level: Level,
    pub delete_time: Option<CharacterDeleteTime>,
    pub equipment: Equipment,
}

/// A line of the character selection as a mathematical value.
pub struct CharacterListItemView {
    pub name: Seq<char>,
    pub gender: u8,
    pub face: u8,
    pub hair: u8,
    pub level: Level,
    pub delete_time: Option<CharacterDeleteTime>,
    pub equipment: Equipment,
}

impl View for CharacterListItem {
    type V = CharacterListItemView;

    open spec fn view(&self) -> CharacterListItemView {
        CharacterListItemView {
            name: self.name@,
            gender: self.gender,
            face: self.face,
            hair: self.hair,
            level: self.level,
            delete_time: self.delete_time,
            equipment: self.equipment,
        }
    }
}

/// What the character selection shows of the character.
pub open spec fn list_item(character: CharacterRecord) -> CharacterListItemView {
    CharacterListItemView {
        name: character.name,
        gender: character.gender,
        face: character.face,
        hair: character.hair,
        level: character.level,
        delete_time: character.delete_time,
        equipment: character.equipment,
    }
}

impl CharacterListItem {
    pub fn from_character(character: &CharacterStorage) -> (item: Self)
        ensures
            item@ == list_item(character@),
    {
        CharacterListItem {
            name: character.info.name.clone(),
            gender: character.info.gender,
            face: character.info.face,
            hair: character.info.hair,
            level: character.level,
            delete_time: character.delete_time,
            equipment: character.equipment,
        }
    }
}

#[derive(Debug)]
pub struct CreateCharacter {
    pub gender: u8,
    pub birth_stone: u8,
    pub hair: u8,
    pub face: u8,
    pub name: String,
}

#[derive(Copy, Clone, Debug, PartialEq, Eq, Structural)]
pub enum CreateCharacterError {
    Failed,
    AlreadyExists,
    InvalidValue,
    NoMoreSlots,
}

#[derive(Debug)]
pub struct DeleteCharacter {
    pub slot: u8,
    pub name: String,
    pub is_delete: bool,
}

#[derive(Copy, Clone, Debug, PartialEq, Eq, Structural)]
pub enum DeleteCharacterError {
    Failed,
}

#[derive(Debug)]
pub struct SelectCharacter {
    pub slot: u8,
    pub name: String,
}

#[derive(Copy, Clone, Debug, PartialEq, Eq, Structural)]
pub enum SelectCharacterError {
    Failed,
}

#[derive(Debug)]
pub struct GameConnectionRequest {
    pub login_token: u32,
    pub password_md5: String,
}

/// The character that a game connection takes over.
#[derive(Debug)]
pub struct GameConnectionResponse {
    pub packet_sequence_id: u32,
    pub name: String,
    pub gender: u8,
    pub birth_stone: u8,
    pub face: u8,
    pub hair: u8,
    pub position: Position,
    pub equipment: Equipment,
    pub basic_stats: BasicStats,
    pub level: Level,
    pub inventory: Inventory,
    pub skill_list: Vec<u16>,
    pub hotbar: Vec<Option<HotbarSlot>>,
}

#[derive(Copy, Clone, Debug, PartialEq, Eq, Structural)]
pub struct JoinZoneResponse {
    pub entity_id: u16,
    pub level: Level,
}

/// A request to walk to a point of the ground plane, towards the entity
/// with the given client id where that is not 0.
#[derive(Copy, Clone, Debug, PartialEq, Eq, Structural)]
pub struct Move {
    pub target_entity_id: u16,
    pub x: i32,
    pub y: i32,
    pub z: u16,
}

#[derive(Copy, Clone, Debug, PartialEq, Eq, Structural)]
pub struct SetHotbarSlot {
    pub slot_index: usize,
    pub slot: Option<HotbarSlot>,
}

#[derive(Copy, Clone, Debug, PartialEq, Eq, Structural)]
pub enum SetHotbarSlotError {
    InvalidSlot,
}

/// The answer of the simulation to a request.
#[derive(Debug)]
pub enum MessageResponse {
    ConnectionRequest(Result<ConnectionRequestResponse, ConnectionRequestError>),
    LoginRequest(Result<(), LoginError>),
    WorldServerList(Vec<(u32, String)>),
    ChannelList(Result<Vec<(u8, String)>, GetChannelListError>),
    JoinServer(Result<JoinServerResponse, JoinServerError>),
    CharacterList(Vec<CharacterListItem>),
    CreateCharacter(Result<u8, CreateCharacterError>),
    DeleteCharacter(Result<Option<CharacterDeleteTime>, DeleteCharacterError>),
    SelectCharacter(Result<JoinServerResponse, SelectCharacterError>),
    GameConnectionRequest(Result<GameConnectionResponse, ConnectionRequestError>),
    JoinZone(JoinZoneResponse),
    SetHotbarSlot(Result<(), SetHotbarSlotError>),
}

/// A request of a connection. Those that expect an answer get it as the
/// result of the stage that handles them.
#[derive(Debug)]
pub enum ClientMessage {
    ConnectionRequest(ConnectionRequest),
    LoginRequest(LoginRequest),
    GetWorldServerList,
    GetChannelList(GetChannelList),
    JoinServer(JoinServer),
    GetCharacterList,
    CreateCharacter(CreateCharacter),
    DeleteCharacter(DeleteCharacter),
    SelectCharacter(SelectCharacter),
    GameConnectionRequest(GameConnectionRequest),
    JoinZoneRequest,
    Chat(String),
    Move(Move),
    SetHotbarSlot(SetHotbarSlot),
}

} // verus!
