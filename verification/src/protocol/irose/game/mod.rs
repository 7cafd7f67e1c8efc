//! The protocol of the game tier: which request each packet of a client
//! makes, which packets answer it, and which packet tells a client of
//! each message of the simulation.

pub mod client_packets;
pub mod common_packets;
pub mod server_packets;

use crate::game::messages::client::{
    ClientMessage, GameConnectionRequest, MessageResponse, Move, SetHotbarSlot,
};
use crate::game::messages::server::ServerMessage;
use crate::irose::protocol::world::client_packets::{
    connect_request_data, is_wire_text, lemma_parse_connect_request, parse_connect_request,
    ConnectRequestView, PacketClientConnectRequest, PASSWORD_MD5_LENGTH,
};
use crate::irose::protocol::world::server_packets::{ConnectResult, PacketConnectionReply};
use crate::irose::protocol::world::{response_value, PAY_FLAGS_ALL};
use crate::protocol::client::{packets_view, run_client_step, ClientEvent, ClientStep, Request};
use crate::protocol::irose::game::client_packets::{
    chat_data, is_wire_slot, join_zone_data, lemma_parse_chat, lemma_parse_join_zone,
    lemma_parse_move, lemma_parse_set_hotbar_slot, move_data, parse_chat, parse_join_zone,
    parse_move, parse_set_hotbar_slot, set_hotbar_slot_data, ClientPackets, PacketClientChat,
    PacketClientJoinZone, PacketClientMove, PacketClientSetHotbarSlot, MAX_EXACT_COORDINATE,
};
use crate::protocol::irose::game::server_packets::{
    attack_entity, attack_entity_packet, character_inventory, character_inventory_packet,
    character_quest_data, character_quest_data_packet, join_zone, join_zone_packet, local_chat,
    local_chat_packet, move_entity, move_entity_packet, remove_entities, remove_entities_packet,
    select_character, select_character_packet, set_hotbar_slot, set_hotbar_slot_packet,
    spawn_entity_character, spawn_entity_character_packet, spawn_entity_monster,
    spawn_entity_monster_packet, spawn_entity_npc, spawn_entity_npc_packet, stop_move_entity,
    stop_move_entity_packet, teleport, teleport_packet, whisper, whisper_packet,
};
use crate::protocol::packet::{Packet, PacketView, ProtocolError};
use vstd::prelude::*;

verus! {

/// The protocol of the game tier.
#[derive(Copy, Clone, Debug, PartialEq, Eq, Structural)]
pub struct GameClient {}

/// Whether the request is the one that the packet makes of the game tier.
/// Only what a character says and where it wants to go gets no answer.
pub open spec fn is_game_request(packet: PacketView, request: Request) -> bool {
    match ClientPackets::with_number(packet.command) {
        Some(ClientPackets::ConnectRequest) => {
            &&& request.expects_response
            &&& request.message matches ClientMessage::GameConnectionRequest(message)
            &&& parse_connect_request(packet.data) matches Some(parsed)
            &&& message.login_token == parsed.login_token
            &&& message.password_md5@ == parsed.password_md5
        },
        Some(ClientPackets::JoinZone) => {
            &&& request.expects_response
            &&& request.message is JoinZoneRequest
            &&& parse_join_zone(packet.data).is_some()
        },
        Some(ClientPackets::Chat) => {
            &&& !request.expects_response
            &&& request.message matches ClientMessage::Chat(text)
            &&& parse_chat(packet.data) == Some(text@)
        },
        Some(ClientPackets::Move) => {
            &&& !request.expects_response
            &&& request.message matches ClientMessage::Move(message)
            &&& parse_move(packet.data) matches Some(parsed)
            &&& message == (Move {
                target_entity_id: parsed.target_entity_id,
                x: parsed.x,
                y: parsed.y,
                z: parsed.z,
            })
        },
        Some(ClientPackets::SetHotbarSlot) => {
            &&& request.expects_response
            &&& request.message matches ClientMessage::SetHotbarSlot(message)
            &&& parse_set_hotbar_slot(packet.data) matches Some(parsed)
            &&& message == (SetHotbarSlot {
                slot_index: parsed.slot_index as usize,
                slot: parsed.slot,
            })
        },
        None => false,
    }
}

/// Whether the payload of the packet can be read as what its command
/// says it is. A packet with an unknown command has nothing to read.
pub open spec fn game_packet_is_valid(packet: PacketView) -> bool {
    match ClientPackets::with_number(packet.command) {
        Some(ClientPackets::ConnectRequest) => parse_connect_request(packet.data).is_some(),
        Some(ClientPackets::JoinZone) => parse_join_zone(packet.data).is_some(),
        Some(ClientPackets::Chat) => parse_chat(packet.data).is_some(),
        Some(ClientPackets::Move) => parse_move(packet.data).is_some(),
        Some(ClientPackets::SetHotbarSlot) => parse_set_hotbar_slot(packet.data).is_some(),
        None => true,
    }
}

/// What a client asks of the game tier, as a mathematical value.
pub enum GameRequestView {
    ConnectRequest(ConnectRequestView),
    JoinZone(PacketClientJoinZone),
    Chat(Seq<char>),
    Move(PacketClientMove),
    SetHotbarSlot(PacketClientSetHotbarSlot),
}

/// The packet with which a client asks for something.
pub open spec fn game_request_packet(asked: GameRequestView) -> PacketView {
    match asked {
        GameRequestView::ConnectRequest(request) => PacketView {
            command: ClientPackets::ConnectRequest.number(),
            data: connect_request_data(request),
        },
        GameRequestView::JoinZone(request) => PacketView {
            command: ClientPackets::JoinZone.number(),
            data: join_zone_data(request),
        },
        GameRequestView::Chat(text) => PacketView {
            command: ClientPackets::Chat.number(),
            data: chat_data(text),
        },
        GameRequestView::Move(request) => PacketView {
            command: ClientPackets::Move.number(),
            data: move_data(request),
        },
        GameRequestView::SetHotbarSlot(request) => PacketView {
            command: ClientPackets::SetHotbarSlot.number(),
            data: set_hotbar_slot_data(request),
        },
    }
}

/// Whether the wire can carry what is asked: a password digest takes up
/// 32 bytes, a text holds no character zero, the coordinates of a point
/// are ones that the wire carries exactly, and the index of what is put
/// in a hotbar slot fits its eleven bits.
pub open spec fn is_wire_game_request(asked: GameRequestView) -> bool {
    match asked {
        GameRequestView::ConnectRequest(request) => vstd::utf8::encode_utf8(
            request.password_md5,
        ).len() == PASSWORD_MD5_LENGTH,
        GameRequestView::JoinZone(_) => true,
        GameRequestView::Chat(text) => is_wire_text(text),
        GameRequestView::Move(request) => -MAX_EXACT_COORDINATE <= request.x
            <= MAX_EXACT_COORDINATE && -MAX_EXACT_COORDINATE <= request.y <= MAX_EXACT_COORDINATE,
        GameRequestView::SetHotbarSlot(request) => is_wire_slot(request.slot),
    }
}

/// Whether the request that is handed to the simulation is of the kind
/// that was asked for and holds what was asked, field by field.
pub open spec fn carries_game_request(request: Request, asked: GameRequestView) -> bool {
    match asked {
        GameRequestView::ConnectRequest(sent) => {
            &&& request.expects_response
            &&& request.message matches ClientMessage::GameConnectionRequest(message)
            &&& message.login_token == sent.login_token
            &&& message.password_md5@ == sent.password_md5
        },
        GameRequestView::JoinZone(_) => request.expects_response
            && request.message is JoinZoneRequest,
        GameRequestView::Chat(sent) => {
            &&& !request.expects_response
            &&& request.message matches ClientMessage::Chat(text)
            &&& text@ == sent
        },
        GameRequestView::Move(sent) => {
            &&& !request.expects_response
            &&& request.message matches ClientMessage::Move(message)
            &&& message == (Move {
                target_entity_id: sent.target_entity_id,
                x: sent.x,
                y: sent.y,
                z: sent.z,
            })
        },
        GameRequestView::SetHotbarSlot(sent) => {
            &&& request.expects_response
            &&& request.message matches ClientMessage::SetHotbarSlot(message)
            &&& message == (SetHotbarSlot { slot_index: sent.slot_index as usize, slot: sent.slot })
        },
    }
}

/// What a client asks with a packet is what the game tier hands to the
/// simulation: the packet of every request that the wire can carry is
/// valid, its command is known, and the request that it makes is of the
/// kind that was asked for and holds what was asked.
pub proof fn lemma_game_request_round_trip(asked: GameRequestView, request: Request)
    requires
        is_wire_game_request(asked),
    ensures
        game_packet_is_valid(game_request_packet(asked)),
        ClientPackets::with_number(game_request_packet(asked).command).is_some(),
        is_game_request(game_request_packet(asked), request) <==> carries_game_request(
            request,
            asked,
        ),
{
    match asked {
        GameRequestView::ConnectRequest(sent) => lemma_parse_connect_request(sent),
        GameRequestView::JoinZone(sent) => lemma_parse_join_zone(sent),
        GameRequestView::Chat(sent) => lemma_parse_chat(sent),
        GameRequestView::Move(sent) => lemma_parse_move(sent),
        GameRequestView::SetHotbarSlot(sent) => lemma_parse_set_hotbar_slot(sent),
    }
}

/// The packets that answer the packet of a client, for the answer that
/// the simulation gave. A connection that was accepted is told so, then
/// which character it has taken over, what the character owns and which
/// quests it has, in this order. A hotbar slot that could not be set gets
/// no packet. It is an error where the simulation gave no answer, where
/// the answer is to another kind of request, and where the packet cannot
/// be read.
pub open spec fn game_replies(packet: PacketView, response: Option<MessageResponse>) -> Result<
    Seq<PacketView>,
    ProtocolError,
> {
    match response {
        None => Err(ProtocolError::Disconnect),
        Some(response) => match (ClientPackets::with_number(packet.command), response) {
            (
                Some(ClientPackets::ConnectRequest),
                MessageResponse::GameConnectionRequest(Ok(accepted)),
            ) => Ok(
                seq![
                    (PacketConnectionReply {
                        result: ConnectResult::Success,
                        packet_sequence_id: accepted.packet_sequence_id,
                        pay_flags: PAY_FLAGS_ALL,
                    }).packet(),
                    select_character(
                        accepted.name@,
                        accepted.gender,
                        accepted.birth_stone,
                        accepted.face,
                        accepted.hair,
                        accepted.position,
                        accepted.equipment,
                        accepted.basic_stats,
                        accepted.level,
                        accepted.skill_list@,
                        accepted.hotbar@,
                    ),
                    character_inventory(accepted.inventory, accepted.equipment),
                    character_quest_data(),
                ],
            ),
            (
                Some(ClientPackets::ConnectRequest),
                MessageResponse::GameConnectionRequest(Err(_)),
            ) => Ok(
                seq![
                    (PacketConnectionReply {
                        result: ConnectResult::Failed,
                        packet_sequence_id: 0,
                        pay_flags: 0,
                    }).packet(),
                ],
            ),
            (Some(ClientPackets::JoinZone), MessageResponse::JoinZone(joined)) => Ok(
                seq![join_zone(joined)],
            ),
            (Some(ClientPackets::SetHotbarSlot), MessageResponse::SetHotbarSlot(Ok(_))) => match parse_set_hotbar_slot(
                packet.data,
            ) {
                Some(request) => Ok(seq![set_hotbar_slot(request.slot_index, request.slot)]),
                None => Err(ProtocolError::InvalidPacket),
            },
            (Some(ClientPackets::SetHotbarSlot), MessageResponse::SetHotbarSlot(Err(_))) => Ok(
                Seq::empty(),
            ),
            _ => Err(ProtocolError::InvalidPacket),
        },
    }
}

/// The packet that tells a client of a message of the simulation.
pub open spec fn game_message_packet(message: ServerMessage) -> PacketView
    recommends
        GameClient::sends(message),
{
    match message {
        ServerMessage::MoveEntity(m) => move_entity(m),
        ServerMessage::StopMoveEntity(m) => stop_move_entity(m),
        ServerMessage::AttackEntity(m) => attack_entity(m),
        ServerMessage::Teleport(m) => teleport(m),
        ServerMessage::LocalChat(m) => local_chat(m.entity_id, m.text@),
        ServerMessage::Whisper(m) => whisper(m.from@, m.text@),
        ServerMessage::SpawnEntityNpc(m) => spawn_entity_npc(m),
        ServerMessage::SpawnEntityMonster(m) => spawn_entity_monster(m),
        ServerMessage::SpawnEntityCharacter(m) => spawn_entity_character(m),
        ServerMessage::RemoveEntities(m) => remove_entities(m.entity_ids@),
        ServerMessage::ReturnToCharacterSelect => arbitrary(),
    }
}

impl GameClient {
    pub fn new() -> (client: Self)
        ensures
            client == (GameClient {  }),
    {
        Self {  }
    }

    /// Makes the request of a packet. A packet whose command the game
    /// tier does not know is passed over: there is no request and no
    /// error. A packet that cannot be read as what its command says is
    /// invalid.
    pub fn handle_packet(&self, packet: &Packet) -> (handled: Result<Option<Request>, ProtocolError>)
        ensures
            handled.is_ok() == game_packet_is_valid(packet@),
            handled matches Err(error) ==> error == ProtocolError::InvalidPacket,
            handled matches Ok(made) ==> made.is_some() == ClientPackets::with_number(
                packet@.command,
            ).is_some(),
            handled matches Ok(Some(request)) ==> is_game_request(packet@, request),
    {
        match ClientPackets::from_u16(packet.command) {
            Some(ClientPackets::ConnectRequest) => {
                match PacketClientConnectRequest::try_from_packet(packet) {
                    Ok(request) => Ok(
                        Some(
                            Request {
                                message: ClientMessage::GameConnectionRequest(
                                    GameConnectionRequest {
                                        login_token: request.login_token,
                                        password_md5: request.password_md5,
                                    },
                                ),
                                expects_response: true,
                            },
                        ),
                    ),
                    Err(error) => Err(error),
                }
            },
            Some(ClientPackets::JoinZone) => {
                match PacketClientJoinZone::try_from_packet(packet) {
                    Ok(_) => Ok(
                        Some(
                            Request {
                                message: ClientMessage::JoinZoneRequest,
                                expects_response: true,
                            },
                        ),
                    ),
                    Err(error) => Err(error),
                }
            },
            Some(ClientPackets::Chat) => {
                match PacketClientChat::try_from_packet(packet) {
                    Ok(chat) => Ok(
                        Some(
                            Request {
                                message: ClientMessage::Chat(chat.text),
                                expects_response: false,
                            },
                        ),
                    ),
                    Err(error) => Err(error),
                }
            },
            Some(ClientPackets::Move) => {
                match PacketClientMove::try_from_packet(packet) {
                    Ok(request) => Ok(
                        Some(
                            Request {
                                message: ClientMessage::Move(
                                    Move {
                                        target_entity_id: request.target_entity_id,
                                        x: request.x,
                                        y: request.y,
                                        z: request.z,
                                    },
                                ),
                                expects_response: false,
                            },
                        ),
                    ),
                    Err(error) => Err(error),
                }
            },
            Some(ClientPackets::SetHotbarSlot) => {
                match PacketClientSetHotbarSlot::try_from_packet(packet) {
                    Ok(request) => Ok(
                        Some(
                            Request {
                                message: ClientMessage::SetHotbarSlot(
                                    SetHotbarSlot {
                                        slot_index: request.slot_index as usize,
                                        slot: request.slot,
                                    },
                                ),
                                expects_response: true,
                            },
                        ),
                    ),
                    Err(error) => Err(error),
                }
            },
            None => Ok(None),
        }
    }

    /// Makes the packets that answer the packet of a client. `response`
    /// is what the simulation answered to the request of the packet, or
    /// nothing where it dropped the request without an answer.
    pub fn handle_response(&self, packet: &Packet, response: Option<&MessageResponse>) -> (replies:
        Result<Vec<Packet>, ProtocolError>)
        ensures
            replies.is_ok() == game_replies(packet@, response_value(response)).is_ok(),
            replies matches Ok(packets) ==> packets_view(packets@) == game_replies(
                packet@,
                response_value(response),
            ).unwrap(),
            replies matches Err(error) ==> game_replies(packet@, response_value(response)) == Err::<
                Seq<PacketView>,
                ProtocolError,
            >(error),
    {
        let response = match response {
            Some(response) => response,
            None => {
                return Err(ProtocolError::Disconnect);
            },
        };
        let mut replies: Vec<Packet> = Vec::new();
        match (ClientPackets::from_u16(packet.command), response) {
            (
                Some(ClientPackets::ConnectRequest),
                MessageResponse::GameConnectionRequest(Ok(accepted)),
            ) => {
                replies.push(
                    PacketConnectionReply {
                        result: ConnectResult::Success,
                        packet_sequence_id: accepted.packet_sequence_id,
                        pay_flags: PAY_FLAGS_ALL,
                    }.to_packet(),
                );
                replies.push(select_character_packet(accepted));
                replies.push(character_inventory_packet(accepted));
                replies.push(character_quest_data_packet());
                assert(packets_view(replies@) =~= game_replies(
                    packet@,
                    Some(*response),
                ).unwrap());
            },
            (
                Some(ClientPackets::ConnectRequest),
                MessageResponse::GameConnectionRequest(Err(_)),
            ) => {
                replies.push(
                    PacketConnectionReply {
                        result: ConnectResult::Failed,
                        packet_sequence_id: 0,
                        pay_flags: 0,
                    }.to_packet(),
                );
                assert(packets_view(replies@) =~= game_replies(
                    packet@,
                    Some(*response),
                ).unwrap());
            },
            (Some(ClientPackets::JoinZone), MessageResponse::JoinZone(joined)) => {
                replies.push(join_zone_packet(joined));
                assert(packets_view(replies@) =~= game_replies(
                    packet@,
                    Some(*response),
                ).unwrap());
            },
            (Some(ClientPackets::SetHotbarSlot), MessageResponse::SetHotbarSlot(Ok(_))) => {
                let request = match PacketClientSetHotbarSlot::try_from_packet(packet) {
                    Ok(request) => request,
                    Err(error) => {
                        return Err(error);
                    },
                };
                replies.push(set_hotbar_slot_packet(request.slot_index, &request.slot));
                assert(packets_view(replies@) =~= game_replies(
                    packet@,
                    Some(*response),
                ).unwrap());
            },
            (Some(ClientPackets::SetHotbarSlot), MessageResponse::SetHotbarSlot(Err(_))) => {
                assert(packets_view(replies@) =~= Seq::<PacketView>::empty());
            },
            _ => {
                return Err(ProtocolError::InvalidPacket);
            },
        }
        Ok(replies)
    }

    /// Whether the game tier sends the message to its clients: it sends
    /// all but the order to go back to the character selection.
    pub open spec fn sends(message: ServerMessage) -> bool {
        !(message is ReturnToCharacterSelect)
    }

    pub fn can_send(&self, message: &ServerMessage) -> (yes: bool)
        ensures
            yes == Self::sends(*message),
    {
        match message {
            ServerMessage::ReturnToCharacterSelect => false,
            _ => true,
        }
    }

    /// Makes the packet that tells a client of a message of the
    /// simulation.
    pub fn handle_server_message(&self, message: &ServerMessage) -> (packet: Packet)
        requires
            Self::sends(*message),
        ensures
            packet@ == game_message_packet(*message),
    {
        match message {
            ServerMessage::MoveEntity(m) => move_entity_packet(m),
            ServerMessage::StopMoveEntity(m) => stop_move_entity_packet(m),
            ServerMessage::AttackEntity(m) => attack_entity_packet(m),
            ServerMessage::Teleport(m) => teleport_packet(m),
            ServerMessage::LocalChat(m) => local_chat_packet(m),
            ServerMessage::Whisper(m) => whisper_packet(m),
            ServerMessage::SpawnEntityNpc(m) => spawn_entity_npc_packet(m),
            ServerMessage::SpawnEntityMonster(m) => spawn_entity_monster_packet(m),
            ServerMessage::SpawnEntityCharacter(m) => spawn_entity_character_packet(m),
            ServerMessage::RemoveEntities(m) => remove_entities_packet(m),
            ServerMessage::ReturnToCharacterSelect => vstd::pervasive::unreached(),
        }
    }

    /// Decides what the client does with what it was waiting for and got.
    pub fn run_client(&self, event: ClientEvent) -> (step: Result<ClientStep, ProtocolError>)
        ensures
            match event {
                ClientEvent::PacketRead(Ok(packet)) => step matches Ok(
                    ClientStep::HandlePacket(same),
                ) && same == packet,
                ClientEvent::PacketRead(Err(error)) => step matches Err(same) && same == error,
                ClientEvent::ServerMessage(Some(message)) => step matches Ok(
                    ClientStep::HandleServerMessage(same),
                ) && same == message,
                ClientEvent::ServerMessage(None) => step matches Err(
                    ProtocolError::ServerInitiatedDisconnect,
                ),
            },
    {
        run_client_step(event)
    }
}

} // verus!
