//! The protocol of the world tier: which request each packet of a client
//! makes, and which packets answer it.

pub mod client_packets;
pub mod server_packets;

use crate::data::duration::Duration;
use crate::game::messages::client::{
    ClientMessage, ConnectionRequest, CreateCharacter, CreateCharacterError, DeleteCharacter,
    MessageResponse, SelectCharacter,
};
use crate::game::messages::server::ServerMessage;
use crate::game::systems::world_server::items_view;
use crate::irose::protocol::world::client_packets::{
    connect_request_data, create_character_data, delete_character_data, is_wire_text,
    lemma_parse_connect_request, lemma_parse_create_character, lemma_parse_delete_character,
    lemma_parse_select_character, parse_connect_request, parse_create_character,
    parse_delete_character, parse_select_character, select_character_data, ClientPackets,
    ConnectRequestView, CreateCharacterView, DeleteCharacterView, PacketClientConnectRequest,
    PacketClientCreateCharacter, PacketClientDeleteCharacter, PacketClientSelectCharacter,
    SelectCharacterView, PASSWORD_MD5_LENGTH,
};
use crate::irose::protocol::world::server_packets::{
    character_list, delete_character_reply, move_server, seconds_until_delete,
    to_seconds_until_delete, ConnectResult, CreateCharacterResult, PacketConnectionReply,
    PacketServerCharacterList, PacketServerCreateCharacterReply, PacketServerDeleteCharacterReply,
    PacketServerMoveServer, PacketServerReturnToCharacterSelect,
};
use crate::protocol::client::{packets_view, run_client_step, ClientEvent, ClientStep, Request};
use crate::protocol::packet::{Packet, PacketView, ProtocolError};
use vstd::prelude::*;

verus! {

/// The pay flags of a connection that was accepted.
pub const PAY_FLAGS_ALL: u32 = 0xff;

/// The first slot that is a platinum slot.
pub const FIRST_PLATINUM_SLOT: u8 = 3;

/// The protocol of the world tier.
#[derive(Copy, Clone, Debug, PartialEq, Eq, Structural)]
pub struct WorldClient {}

/// Whether the request is the one that the packet makes of the world
/// tier.
pub open spec fn is_world_request(packet: PacketView, request: Request) -> bool {
    &&& request.expects_response
    &&& match ClientPackets::with_number(packet.command) {
        Some(ClientPackets::ConnectRequest) => {
            &&& request.message matches ClientMessage::ConnectionRequest(message)
            &&& parse_connect_request(packet.data) matches Some(parsed)
            &&& message.login_token == parsed.login_token
            &&& message.password_md5@ == parsed.password_md5
        },
        Some(ClientPackets::CharacterListRequest) => request.message is GetCharacterList,
        Some(ClientPackets::CreateCharacter) => {
            &&& request.message matches ClientMessage::CreateCharacter(message)
            &&& parse_create_character(packet.data) matches Some(parsed)
            &&& message.gender == parsed.gender
            &&& message.birth_stone == parsed.birth_stone
            &&& message.hair == parsed.hair
            &&& message.face == parsed.face
            &&& message.name@ == parsed.name
        },
        Some(ClientPackets::DeleteCharacter) => {
            &&& request.message matches ClientMessage::DeleteCharacter(message)
            &&& parse_delete_character(packet.data) matches Some(parsed)
            &&& message.slot == parsed.slot
            &&& message.is_delete == parsed.is_delete
            &&& message.name@ == parsed.name
        },
        Some(ClientPackets::SelectCharacter) => {
            &&& request.message matches ClientMessage::SelectCharacter(message)
            &&& parse_select_character(packet.data) matches Some(parsed)
            &&& message.slot == parsed.slot
            &&& message.name@ == parsed.name
        },
        None => false,
    }
}

/// Whether the payload of the packet can be read as what its command
/// says it is. A packet with an unknown command has nothing to read.
pub open spec fn world_packet_is_valid(packet: PacketView) -> bool {
    match ClientPackets::with_number(packet.command) {
        Some(ClientPackets::ConnectRequest) => parse_connect_request(packet.data).is_some(),
        Some(ClientPackets::CharacterListRequest) => true,
        Some(ClientPackets::CreateCharacter) => parse_create_character(packet.data).is_some(),
        Some(ClientPackets::DeleteCharacter) => parse_delete_character(packet.data).is_some(),
        Some(ClientPackets::SelectCharacter) => parse_select_character(packet.data).is_some(),
        None => true,
    }
}

/// What a client asks of the world tier, as a mathematical value.
pub enum WorldRequestView {
    ConnectRequest(ConnectRequestView),
    CharacterListRequest,
    CreateCharacter(CreateCharacterView),
    DeleteCharacter(DeleteCharacterView),
    SelectCharacter(SelectCharacterView),
}

/// The packet with which a client asks for something.
pub open spec fn world_request_packet(asked: WorldRequestView) -> PacketView {
    match asked {
        WorldRequestView::ConnectRequest(request) => PacketView {
            command: ClientPackets::ConnectRequest.number(),
            data: connect_request_data(request),
        },
        WorldRequestView::CharacterListRequest => PacketView {
            command: ClientPackets::CharacterListRequest.number(),
            data: Seq::empty(),
        },
        WorldRequestView::CreateCharacter(request) => PacketView {
            command: ClientPackets::CreateCharacter.number(),
            data: create_character_data(request),
        },
        WorldRequestView::DeleteCharacter(request) => PacketView {
            command: ClientPackets::DeleteCharacter.number(),
            data: delete_character_data(request),
        },
        WorldRequestView::SelectCharacter(request) => PacketView {
            command: ClientPackets::SelectCharacter.number(),
            data: select_character_data(request),
        },
    }
}

/// Whether the wire can carry what is asked: a password digest takes up
/// 32 bytes, and a name holds no character zero.
pub open spec fn is_wire_world_request(asked: WorldRequestView) -> bool {
    match asked {
        WorldRequestView::ConnectRequest(request) => vstd::utf8::encode_utf8(
            request.password_md5,
        ).len() == PASSWORD_MD5_LENGTH,
        WorldRequestView::CharacterListRequest => true,
        WorldRequestView::CreateCharacter(request) => is_wire_text(request.name),
        WorldRequestView::DeleteCharacter(request) => is_wire_text(request.name),
        WorldRequestView::SelectCharacter(request) => is_wire_text(request.name),
    }
}

/// Whether the request that is handed to the simulation is of the kind
/// that was asked for and holds what was asked, field by field.
pub open spec fn carries_world_request(request: Request, asked: WorldRequestView) -> bool {
    &&& request.expects_response
    &&& match asked {
        WorldRequestView::ConnectRequest(sent) => {
            &&& request.message matches ClientMessage::ConnectionRequest(message)
            &&& message.login_token == sent.login_token
            &&& message.password_md5@ == sent.password_md5
        },
        WorldRequestView::CharacterListRequest => request.message is GetCharacterList,
        WorldRequestView::CreateCharacter(sent) => {
            &&& request.message matches ClientMessage::CreateCharacter(message)
            &&& message.gender == sent.gender
            &&& message.birth_stone == sent.birth_stone
            &&& message.hair == sent.hair
            &&& message.face == sent.face
            &&& message.name@ == sent.name
        },
        WorldRequestView::DeleteCharacter(sent) => {
            &&& request.message matches ClientMessage::DeleteCharacter(message)
            &&& message.slot == sent.slot
            &&& message.is_delete == sent.is_delete
            &&& message.name@ == sent.name
        },
        WorldRequestView::SelectCharacter(sent) => {
            &&& request.message matches ClientMessage::SelectCharacter(message)
            &&& message.slot == sent.slot
            &&& message.name@ == sent.name
        },
    }
}

/// What a client asks with a packet is what the world tier hands to the
/// simulation: the packet of every request that the wire can carry is
/// valid, its command is known, and the request that it makes is of the
/// kind that was asked for and holds what was asked.
pub proof fn lemma_world_request_round_trip(asked: WorldRequestView, request: Request)
    requires
        is_wire_world_request(asked),
    ensures
        world_packet_is_valid(world_request_packet(asked)),
        ClientPackets::with_number(world_request_packet(asked).command).is_some(),
        is_world_request(world_request_packet(asked), request) <==> carries_world_request(
            request,
            asked,
        ),
{
    match asked {
        WorldRequestView::ConnectRequest(sent) => lemma_parse_connect_request(sent),
        WorldRequestView::CharacterListRequest => {},
        WorldRequestView::CreateCharacter(sent) => lemma_parse_create_character(sent),
        WorldRequestView::DeleteCharacter(sent) => lemma_parse_delete_character(sent),
        WorldRequestView::SelectCharacter(sent) => lemma_parse_select_character(sent),
    }
}

/// The answer to a connection request as a packet.
pub open spec fn connection_reply(response: MessageResponse) -> PacketConnectionReply
    recommends
        response is ConnectionRequest,
{
    match response {
        MessageResponse::ConnectionRequest(Ok(accepted)) => PacketConnectionReply {
            result: ConnectResult::Success,
            packet_sequence_id: accepted.packet_sequence_id,
            pay_flags: PAY_FLAGS_ALL,
        },
        _ => PacketConnectionReply {
            result: ConnectResult::Failed,
            packet_sequence_id: 0,
            pay_flags: 0,
        },
    }
}

/// The answer to the creation of a character as a packet. A character in
/// the fourth slot or a later one is in a platinum slot.
pub open spec fn create_character_reply(created: Result<u8, CreateCharacterError>)
    -> PacketServerCreateCharacterReply {
    match created {
        Ok(slot) => PacketServerCreateCharacterReply {
            result: CreateCharacterResult::Success,
            is_platinum: slot >= FIRST_PLATINUM_SLOT,
        },
        Err(CreateCharacterError::Failed) => PacketServerCreateCharacterReply {
            result: CreateCharacterResult::Failed,
            is_platinum: false,
        },
        Err(CreateCharacterError::AlreadyExists) => PacketServerCreateCharacterReply {
            result: CreateCharacterResult::NameAlreadyExists,
            is_platinum: false,
        },
        Err(CreateCharacterError::InvalidValue) => PacketServerCreateCharacterReply {
            result: CreateCharacterResult::InvalidValue,
            is_platinum: false,
        },
        Err(CreateCharacterError::NoMoreSlots) => PacketServerCreateCharacterReply {
            result: CreateCharacterResult::NoMoreSlots,
            is_platinum: false,
        },
    }
}

/// The packets that answer the packet of a client, for the answer that
/// the simulation gave at the time `now`. It is an error where the
/// simulation gave no answer, where the answer is to another kind of
/// request, where the packet cannot be read, and where the selection of a
/// character failed.
pub open spec fn world_replies(
    packet: PacketView,
    response: Option<MessageResponse>,
    now: Duration,
) -> Result<Seq<PacketView>, ProtocolError> {
    match response {
        None => Err(ProtocolError::Disconnect),
        Some(response) => match (ClientPackets::with_number(packet.command), response) {
            (Some(ClientPackets::ConnectRequest), MessageResponse::ConnectionRequest(_)) => Ok(
                seq![connection_reply(response).packet()],
            ),
            (Some(ClientPackets::CharacterListRequest), MessageResponse::CharacterList(items)) => Ok(
                seq![character_list(items_view(items@), now)],
            ),
            (Some(ClientPackets::CreateCharacter), MessageResponse::CreateCharacter(created)) => Ok(
                seq![create_character_reply(created).packet()],
            ),
            (
                Some(ClientPackets::DeleteCharacter),
                MessageResponse::DeleteCharacter(deleted),
            ) => match parse_delete_character(packet.data) {
                None => Err(ProtocolError::InvalidPacket),
                Some(request) => Ok(
                    seq![
                        delete_character_reply(
                            match deleted {
                                Ok(mark) => Some(seconds_until_delete(mark, now)),
                                Err(_) => None,
                            },
                            request.name,
                        ),
                    ],
                ),
            },
            (
                Some(ClientPackets::SelectCharacter),
                MessageResponse::SelectCharacter(selected),
            ) => match selected {
                Ok(response) => Ok(
                    seq![
                        move_server(
                            response.login_token,
                            response.packet_codec_seed,
                            response.ip@,
                            response.port,
                        ),
                    ],
                ),
                Err(_) => Err(ProtocolError::InvalidPacket),
            },
            _ => Err(ProtocolError::InvalidPacket),
        },
    }
}

/// The answer of the simulation as a value.
pub open spec fn response_value(response: Option<&MessageResponse>) -> Option<MessageResponse> {
    match response {
        Some(response) => Some(*response),
        None => None,
    }
}

impl WorldClient {
    pub fn new() -> (client: Self)
        ensures
            client == (WorldClient {  }),
    {
        Self {  }
    }

    /// Makes the request of a packet. A packet whose command the world
    /// tier does not know is passed over: there is no request and no
    /// error. A packet that cannot be read as what its command says is
    /// invalid.
    pub fn handle_packet(&self, packet: &Packet) -> (handled: Result<Option<Request>, ProtocolError>)
        ensures
            handled.is_ok() == world_packet_is_valid(packet@),
            handled matches Err(error) ==> error == ProtocolError::InvalidPacket,
            handled matches Ok(made) ==> made.is_some() == ClientPackets::with_number(
                packet@.command,
            ).is_some(),
            handled matches Ok(Some(request)) ==> is_world_request(packet@, request),
    {
        let message = match ClientPackets::from_u16(packet.command) {
            Some(ClientPackets::ConnectRequest) => {
                match PacketClientConnectRequest::try_from_packet(packet) {
                    Ok(request) => ClientMessage::ConnectionRequest(
                        ConnectionRequest {
                            login_token: request.login_token,
                            password_md5: request.password_md5,
                        },
                    ),
                    Err(error) => {
                        return Err(error);
                    },
                }
            },
            Some(ClientPackets::CharacterListRequest) => ClientMessage::GetCharacterList,
            Some(ClientPackets::CreateCharacter) => {
                match PacketClientCreateCharacter::try_from_packet(packet) {
                    Ok(request) => ClientMessage::CreateCharacter(
                        CreateCharacter {
                            gender: request.gender,
                            birth_stone: request.birth_stone,
                            hair: request.hair,
                            face: request.face,
                            name: request.name,
                        },
                    ),
                    Err(error) => {
                        return Err(error);
                    },
                }
            },
            Some(ClientPackets::DeleteCharacter) => {
                match PacketClientDeleteCharacter::try_from_packet(packet) {
                    Ok(request) => ClientMessage::DeleteCharacter(
                        DeleteCharacter {
                            slot: request.slot,
                            name: request.name,
                            is_delete: request.is_delete,
                        },
                    ),
                    Err(error) => {
                        return Err(error);
                    },
                }
            },
            Some(ClientPackets::SelectCharacter) => {
                match PacketClientSelectCharacter::try_from_packet(packet) {
                    Ok(request) => ClientMessage::SelectCharacter(
                        SelectCharacter { slot: request.slot, name: request.name },
                    ),
                    Err(error) => {
                        return Err(error);
                    },
                }
            },
            None => {
                return Ok(None);
            },
        };
        Ok(Some(Request { message, expects_response: true }))
    }

    /// Makes the packets that answer the packet of a client. `response`
    /// is what the simulation answered to the request of the packet, or
    /// nothing where it dropped the request without an answer; `now` is
    /// the time since the epoch.
    pub fn handle_response(
        &self,
        packet: &Packet,
        response: Option<&MessageResponse>,
        now: &Duration,
    ) -> (replies: Result<Vec<Packet>, ProtocolError>)
        ensures
            replies.is_ok() == world_replies(packet@, response_value(response), *now).is_ok(),
            replies matches Ok(packets) ==> packets_view(packets@) == world_replies(
                packet@,
                response_value(response),
                *now,
            ).unwrap(),
            replies matches Err(error) ==> world_replies(packet@, response_value(response), *now)
                == Err::<Seq<PacketView>, ProtocolError>(error),
    {
        let response = match response {
            Some(response) => response,
            None => {
                return Err(ProtocolError::Disconnect);
            },
        };
        let reply = match (ClientPackets::from_u16(packet.command), response) {
            (Some(ClientPackets::ConnectRequest), MessageResponse::ConnectionRequest(result)) => {
                match result {
                    Ok(accepted) => PacketConnectionReply {
                        result: ConnectResult::Success,
                        packet_sequence_id: accepted.packet_sequence_id,
                        pay_flags: PAY_FLAGS_ALL,
                    }.to_packet(),
                    Err(_) => PacketConnectionReply {
                        result: ConnectResult::Failed,
                        packet_sequence_id: 0,
                        pay_flags: 0,
                    }.to_packet(),
                }
            },
            (Some(ClientPackets::CharacterListRequest), MessageResponse::CharacterList(items)) => {
                PacketServerCharacterList { characters: items }.to_packet(now)
            },
            (Some(ClientPackets::CreateCharacter), MessageResponse::CreateCharacter(created)) => {
                match created {
                    Ok(slot) => PacketServerCreateCharacterReply {
                        result: CreateCharacterResult::Success,
                        is_platinum: *slot >= FIRST_PLATINUM_SLOT,
                    }.to_packet(),
                    Err(CreateCharacterError::Failed) => PacketServerCreateCharacterReply {
                        result: CreateCharacterResult::Failed,
                        is_platinum: false,
                    }.to_packet(),
                    Err(CreateCharacterError::AlreadyExists) => PacketServerCreateCharacterReply {
                        result: CreateCharacterResult::NameAlreadyExists,
                        is_platinum: false,
                    }.to_packet(),
                    Err(CreateCharacterError::InvalidValue) => PacketServerCreateCharacterReply {
                        result: CreateCharacterResult::InvalidValue,
                        is_platinum: false,
                    }.to_packet(),
                    Err(CreateCharacterError::NoMoreSlots) => PacketServerCreateCharacterReply {
                        result: CreateCharacterResult::NoMoreSlots,
                        is_platinum: false,
                    }.to_packet(),
                }
            },
            (Some(ClientPackets::DeleteCharacter), MessageResponse::DeleteCharacter(deleted)) => {
                let request = match PacketClientDeleteCharacter::try_from_packet(packet) {
                    Ok(request) => request,
                    Err(error) => {
                        return Err(error);
                    },
                };
                let seconds_until_delete = match deleted {
                    Ok(mark) => Some(to_seconds_until_delete(mark, now)),
                    Err(_) => None,
                };
                PacketServerDeleteCharacterReply {
                    seconds_until_delete,
                    name: &request.name,
                }.to_packet()
            },
            (Some(ClientPackets::SelectCharacter), MessageResponse::SelectCharacter(selected)) => {
                match selected {
                    Ok(response) => PacketServerMoveServer {
                        login_token: response.login_token,
                        packet_codec_seed: response.packet_codec_seed,
                        ip: &response.ip,
                        port: response.port,
                    }.to_packet(),
                    Err(_) => {
                        return Err(ProtocolError::InvalidPacket);
                    },
                }
            },
            _ => {
                return Err(ProtocolError::InvalidPacket);
            },
        };
        let mut replies: Vec<Packet> = Vec::new();
        replies.push(reply);
        assert(packets_view(replies@) =~= seq![reply@]);
        Ok(replies)
    }

    /// Whether the world tier sends the message to its clients: only the
    /// order to go back to the character selection is one of its
    /// messages.
    pub open spec fn sends(message: ServerMessage) -> bool {
        message is ReturnToCharacterSelect
    }

    pub fn can_send(&self, message: &ServerMessage) -> (yes: bool)
        ensures
            yes == Self::sends(*message),
    {
        match message {
            ServerMessage::ReturnToCharacterSelect => true,
            _ => false,
        }
    }

    /// Makes the packet of a message of the simulation.
    pub fn handle_server_message(&self, message: &ServerMessage) -> (packet: Packet)
        requires
            Self::sends(*message),
        ensures
            packet@ == (PacketServerReturnToCharacterSelect {  }).packet(),
    {
        PacketServerReturnToCharacterSelect {  }.to_packet()
    }

    /// Decides what the client does with what it was waiting for and got.
    pub fn run_client(&self, event: ClientEvent) -> (step: Result<ClientStep, ProtocolError>)
        ensures
            match event {
                ClientEvent::PacketRead(Ok(packet)) => step matches Ok(
                    ClientStep::HandlePacket(same),
                ) && same == packet,
                ClientEvent::PacketRead(Err(error)) => step matches Err(same) && same == error,
                ClientEvent::ServerMessage(Some(message)) => step matches Ok(
                    ClientStep::HandleServerMessage(same),
                ) && same == message,
                ClientEvent::ServerMessage(None) => step matches Err(
                    ProtocolError::ServerInitiatedDisconnect,
                ),
            },
    {
        run_client_step(event)
    }
}

} // verus!
