//! The game tier: taking over the character that was selected, entering
//! its zone, and what a player asks for while there.

use crate::data::account::{loaded_account, AccountRecords, AccountStore};
use crate::data::character::{
    loaded_character, CharacterRecord, CharacterRecords, CharacterStorage, CharacterStore, Hotbar,
    HotbarSlot,
};
use crate::data::skill_database::SkillId;
use crate::game::components::client_entity::{ClientEntity, ClientEntityId};
use crate::game::components::clients::GameClient;
use crate::game::components::command::{CommandData, CommandMove, NextCommand};
use crate::game::components::entity::Entity;
use crate::game::components::position::{Point3, Position};
use crate::game::messages::client::{
    ClientMessage, ConnectionRequestError, GameConnectionResponse, JoinZoneResponse,
    SetHotbarSlotError,
};
use crate::game::messages::server::{LocalChat, ServerMessage, ServerMessageView};
use crate::game::resources::client_entity_id_list::{
    is_assigned, is_free, AssignedId, ClientEntityIdList,
};
use crate::game::resources::login_tokens::{
    has_token, token_position, LoginTokenView, LoginTokens,
};
use crate::game::resources::server_messages::{MessageScope, ServerMessages};
use crate::game::systems::login_server::PACKET_SEQUENCE_ID;
use crate::game::systems::world_server::{connection_error, to_connection_error};
use vstd::prelude::*;

verus! {

/// The numbers of the skills, in the same order.
pub open spec fn skill_numbers(skills: Seq<SkillId>) -> Seq<u16> {
    Seq::new(skills.len(), |i: int| skills[i].value())
}

/// Whether the answer tells a connection of the character that it takes
/// over.
pub open spec fn describes(response: GameConnectionResponse, character: CharacterRecord) -> bool {
    &&& response.packet_sequence_id == PACKET_SEQUENCE_ID
    &&& response.name@ == character.name
    &&& response.gender == character.gender
    &&& response.birth_stone == character.birth_stone
    &&& response.face == character.face
    &&& response.hair == character.hair
    &&& response.position == character.position
    &&& response.equipment == character.equipment
    &&& response.basic_stats == character.basic_stats
    &&& response.level == character.level
    &&& response.inventory == character.inventory
    &&& response.skill_list@ == skill_numbers(character.skills)
    &&& response.hotbar@ == character.hotbar
}

/// The outcome of presenting a login token to the game tier.
pub struct GameAuthenticationModel {
    /// The character that the connection takes over.
    pub reply: Result<CharacterRecord, ConnectionRequestError>,
    pub tokens: Seq<LoginTokenView>,
    /// The token that the connection remembers.
    pub login_token: u32,
}

/// Presents the token with the password digest. The token must be in use,
/// the account store must hand out the account of its user for the
/// digest, a character must have been selected with the token, and the
/// character store must hand out that character; otherwise the request is
/// refused and nothing changes. The token is then taken out of use: it
/// has brought its holder to the game.
pub open spec fn game_authentication(
    login_token_before: u32,
    tokens: Seq<LoginTokenView>,
    accounts: AccountRecords,
    characters: CharacterRecords,
    login_token: u32,
    password_md5: Seq<char>,
) -> GameAuthenticationModel {
    let refused = |error: ConnectionRequestError|
        GameAuthenticationModel { reply: Err(error), tokens, login_token: login_token_before };
    if !has_token(tokens, login_token) {
        refused(ConnectionRequestError::InvalidToken)
    } else {
        let at = token_position(tokens, login_token);
        match loaded_account(accounts, tokens[at].username, password_md5) {
            Err(error) => refused(connection_error(error)),
            Ok(_) => match tokens[at].selected_character {
                None => refused(ConnectionRequestError::Failed),
                Some(name) => match loaded_character(characters, name) {
                    Err(_) => refused(ConnectionRequestError::Failed),
                    Ok(character) => GameAuthenticationModel {
                        reply: Ok(character),
                        tokens: tokens.remove(at),
                        login_token,
                    },
                },
            },
        }
    }
}

/// What the game stage does for a connection that has not presented its
/// token yet.
#[derive(Debug)]
pub enum GameAuthentication {
    /// The answer to a connection request, and where the token was
    /// accepted the character to attach to the connection.
    ConnectionReply {
        reply: Result<GameConnectionResponse, ConnectionRequestError>,
        character: Option<CharacterStorage>,
    },
    /// The request is none that a connection may make before it has
    /// presented its token: the connection is to be dropped.
    ProtocolFault,
}

/// What a connection is told of the character that it takes over.
pub fn to_game_connection_response(character: &CharacterStorage) -> (response:
    GameConnectionResponse)
    ensures
        describes(response, character@),
{
    let mut skill_list: Vec<u16> = Vec::new();
    let mut i: usize = 0;
    while i < character.skill_list.skills.len()
        invariant
            i <= character.skill_list.skills.len(),
            skill_list@.len() == i,
            forall|k: int| 0 <= k < i ==> skill_list@[k] == character.skill_list.skills@[k].value(),
        decreases character.skill_list.skills.len() - i,
    {
        skill_list.push(character.skill_list.skills[i].get());
        i += 1;
    }
    assert(skill_list@ =~= skill_numbers(character@.skills));
    let mut hotbar: Vec<Option<HotbarSlot>> = Vec::new();
    let mut j: usize = 0;
    while j < character.hotbar.slots.len()
        invariant
            j <= character.hotbar.slots.len(),
            hotbar@ == character.hotbar.slots@.take(j as int),
        decreases character.hotbar.slots.len() - j,
    {
        hotbar.push(character.hotbar.slots[j]);
        assert(hotbar@ =~= character.hotbar.slots@.take(j + 1));
        j += 1;
    }
    assert(hotbar@ =~= character.hotbar.slots@);
    GameConnectionResponse {
        packet_sequence_id: PACKET_SEQUENCE_ID,
        name: character.info.name.clone(),
        gender: character.info.gender,
        birth_stone: character.info.birth_stone,
        face: character.info.face,
        hair: character.info.hair,
        position: character.position,
        equipment: character.equipment,
        basic_stats: character.basic_stats,
        level: character.level,
        inventory: character.inventory,
        skill_list,
        hotbar,
    }
}

/// Handles a request of a connection that has not presented its token
/// yet.
pub fn game_server_authentication_system(
    client: &mut GameClient,
    login_tokens: &mut LoginTokens,
    accounts: &AccountStore,
    characters: &CharacterStore,
    message: &ClientMessage,
) -> (outcome: GameAuthentication)
    ensures
        final(client).pending_messages == old(client).pending_messages,
        final(client).outbound_messages == old(client).outbound_messages,
        match *message {
            ClientMessage::GameConnectionRequest(request) => {
                let model = game_authentication(
                    old(client).login_token,
                    old(login_tokens)@,
                    accounts@,
                    characters@,
                    request.login_token,
                    request.password_md5@,
                );
                &&& outcome matches GameAuthentication::ConnectionReply { reply, character }
                &&& reply.is_ok() == model.reply.is_ok()
                &&& reply matches Err(error) ==> model.reply == Err::<
                    CharacterRecord,
                    ConnectionRequestError,
                >(error)
                &&& reply matches Ok(response) ==> describes(response, model.reply.unwrap())
                &&& character.is_some() == model.reply.is_ok()
                &&& character matches Some(attached) ==> attached@ == model.reply.unwrap()
                &&& final(login_tokens)@ == model.tokens
                &&& final(client).login_token == model.login_token
            },
            _ => {
                &&& outcome is ProtocolFault
                &&& final(login_tokens)@ == old(login_tokens)@
                &&& final(client).login_token == old(client).login_token
            },
        },
{
    let request = match message {
        ClientMessage::GameConnectionRequest(request) => request,
        _ => {
            return GameAuthentication::ProtocolFault;
        },
    };
    let refused = |error: ConnectionRequestError| -> (outcome: GameAuthentication)
        ensures
            outcome matches GameAuthentication::ConnectionReply { reply, character }
                && reply matches Err(same) && same == error && character.is_none(),
        { GameAuthentication::ConnectionReply { reply: Err(error), character: None } };
    let token = match login_tokens.find(request.login_token) {
        Some(token) => token,
        None => {
            return refused(ConnectionRequestError::InvalidToken);
        },
    };
    match accounts.try_load(&token.username, &request.password_md5) {
        Ok(_) => {},
        Err(error) => {
            return refused(to_connection_error(error));
        },
    }
    let character = match &token.selected_character {
        None => {
            return refused(ConnectionRequestError::Failed);
        },
        Some(name) => match characters.try_load(name) {
            Ok(character) => character,
            Err(_) => {
                return refused(ConnectionRequestError::Failed);
            },
        },
    };
    let _ = login_tokens.remove(request.login_token);
    client.login_token = request.login_token;
    GameAuthentication::ConnectionReply {
        reply: Ok(to_game_connection_response(&character)),
        character: Some(character),
    }
}

/// What the game stage does for a connection that asks to enter the zone
/// of its character.
#[derive(Debug, PartialEq, Eq)]
pub enum GameJoin {
    /// The character enters its zone: the identifier and the place to
    /// attach to its entity, both at once, and the answer.
    Joined { client_entity: ClientEntity, position: Position, response: JoinZoneResponse },
    /// The zone has no identifier left for the character; it stays
    /// outside and the request gets no answer.
    NoClientEntity,
    /// The request is none to enter a zone; it is passed over.
    Unhandled,
}

/// Lets the character of a connection enter its zone at the tick. It
/// enters where it was when it was saved, under the smallest identifier
/// that the zone has free.
pub fn game_server_join_system(
    entity: &Entity,
    character: &CharacterStorage,
    client_entity_id_list: &mut ClientEntityIdList,
    message: &ClientMessage,
    tick: u64,
) -> (outcome: GameJoin)
    ensures
        final(client_entity_id_list)@.released == old(client_entity_id_list)@.released,
        match *message {
            ClientMessage::JoinZoneRequest => match outcome {
                GameJoin::Joined { client_entity, position, response } => {
                    &&& is_free(
                        old(client_entity_id_list)@,
                        character.position.zone,
                        client_entity.id,
                        tick,
                    )
                    &&& forall|smaller: u16|
                        smaller < client_entity.id.0 ==> !is_free(
                            old(client_entity_id_list)@,
                            character.position.zone,
                            ClientEntityId(smaller),
                            tick,
                        )
                    &&& position == character.position
                    &&& response == (JoinZoneResponse {
                        entity_id: client_entity.id.0,
                        level: character.level,
                    })
                    &&& final(client_entity_id_list)@.assigned == old(
                        client_entity_id_list,
                    )@.assigned.push(
                        AssignedId {
                            zone: character.position.zone,
                            id: client_entity.id,
                            entity: *entity,
                        },
                    )
                },
                GameJoin::NoClientEntity => {
                    &&& forall|id: u16|
                        !is_free(
                            old(client_entity_id_list)@,
                            character.position.zone,
                            ClientEntityId(id),
                            tick,
                        )
                    &&& final(client_entity_id_list)@.assigned == old(
                        client_entity_id_list,
                    )@.assigned
                },
                GameJoin::Unhandled => false,
            },
            _ => outcome is Unhandled && final(client_entity_id_list)@.assigned == old(
                client_entity_id_list,
            )@.assigned,
        },
{
    match message {
        ClientMessage::JoinZoneRequest => {
            match client_entity_id_list.allocate(character.position.zone, *entity, tick) {
                Some(id) => GameJoin::Joined {
                    client_entity: ClientEntity::new(id),
                    position: character.position,
                    response: JoinZoneResponse { entity_id: id.0, level: character.level },
                },
                None => GameJoin::NoClientEntity,
            }
        },
        _ => GameJoin::Unhandled,
    }
}

/// What the game stage does for a request of a player in a zone.
#[derive(Debug, PartialEq, Eq)]
pub struct GameRequestOutcome {
    /// The intent to queue for the entity of the player.
    pub next_command: Option<NextCommand>,
    /// The answer to the request, for those that get one.
    pub response: Option<Result<(), SetHotbarSlotError>>,
}

/// The walk that a request to move asks for: to the point of the request,
/// in pursuit of the entity of the zone that has the identifier of the
/// request, if there is one.
pub open spec fn requested_move(x: i32, y: i32, z: u16, target: Option<Entity>) -> NextCommand {
    NextCommand(
        CommandData::Move(CommandMove { destination: Point3 { x, y, z: z as i32 }, target }),
    )
}

/// Handles a request of a player whose character is in a zone. A request
/// to move queues the walk. What the character says is told to its
/// observers. A request to set a hotbar slot changes the slot if the
/// hotbar has it and is refused if not. Any other request is passed over.
pub fn game_server_main_system(
    entity: &Entity,
    client_entity: &ClientEntity,
    position: &Position,
    hotbar: &mut Hotbar,
    client_entity_id_list: &ClientEntityIdList,
    server_messages: &mut ServerMessages,
    message: &ClientMessage,
) -> (outcome: GameRequestOutcome)
    ensures
        match *message {
            ClientMessage::Move(request) => {
                let id = ClientEntityId(request.target_entity_id);
                &&& outcome.response.is_none()
                &&& outcome.next_command matches Some(next)
                &&& next.0 matches CommandData::Move(order)
                &&& next == requested_move(request.x, request.y, request.z, order.target)
                &&& order.target.is_some() == (request.target_entity_id != 0 && is_assigned(
                    client_entity_id_list@,
                    position.zone,
                    id,
                ))
                &&& order.target matches Some(target) ==> exists|i: int|
                    0 <= i < client_entity_id_list@.assigned.len()
                        && #[trigger] client_entity_id_list@.assigned[i] == (AssignedId {
                        zone: position.zone,
                        id,
                        entity: target,
                    })
                &&& final(hotbar).slots@ == old(hotbar).slots@
                &&& final(server_messages)@ == old(server_messages)@
            },
            ClientMessage::Chat(text) => {
                &&& outcome == (GameRequestOutcome { next_command: None, response: None })
                &&& final(hotbar).slots@ == old(hotbar).slots@
                &&& final(server_messages)@ == old(server_messages)@.push(
                    (
                        MessageScope::Entity(*entity),
                        ServerMessageView::LocalChat { entity_id: client_entity.id.0, text: text@ },
                    ),
                )
            },
            ClientMessage::SetHotbarSlot(request) => {
                &&& outcome.next_command.is_none()
                &&& final(server_messages)@ == old(server_messages)@
                &&& if request.slot_index < old(hotbar).slots@.len() {
                    &&& outcome.response == Some(Ok::<(), SetHotbarSlotError>(()))
                    &&& final(hotbar).slots@ == old(hotbar).slots@.update(
                        request.slot_index as int,
                        request.slot,
                    )
                } else {
                    &&& outcome.response == Some(
                        Err::<(), SetHotbarSlotError>(SetHotbarSlotError::InvalidSlot),
                    )
                    &&& final(hotbar).slots@ == old(hotbar).slots@
                }
            },
            _ => {
                &&& outcome == (GameRequestOutcome { next_command: None, response: None })
                &&& final(hotbar).slots@ == old(hotbar).slots@
                &&& final(server_messages)@ == old(server_messages)@
            },
        },
{
    match message {
        ClientMessage::Move(request) => {
            let target = if request.target_entity_id != 0 {
                client_entity_id_list.get_entity(
                    position.zone,
                    ClientEntityId(request.target_entity_id),
                )
            } else {
                None
            };
            GameRequestOutcome {
                next_command: Some(
                    NextCommand(
                        CommandData::Move(
                            CommandMove {
                                destination: Point3::new(request.x, request.y, request.z as i32),
                                target,
                            },
                        ),
                    ),
                ),
                response: None,
            }
        },
        ClientMessage::Chat(text) => {
            server_messages.send_entity_message(
                *entity,
                ServerMessage::LocalChat(
                    LocalChat { entity_id: client_entity.id.0, text: text.clone() },
                ),
            );
            GameRequestOutcome { next_command: None, response: None }
        },
        ClientMessage::SetHotbarSlot(request) => {
            if request.slot_index < hotbar.slots.len() {
                hotbar.slots[request.slot_index] = request.slot;
                GameRequestOutcome { next_command: None, response: Some(Ok(())) }
            } else {
                GameRequestOutcome {
                    next_command: None,
                    response: Some(Err(SetHotbarSlotError::InvalidSlot)),
                }
            }
        },
        _ => GameRequestOutcome { next_command: None, response: None },
    }
}

} // verus!
