//! What every protocol client does for its connection. A client waits for
//! the next packet from the socket and for the next message from the
//! simulation at once, and handles whichever comes first.

use crate::game::messages::client::ClientMessage;
use crate::game::messages::server::ServerMessage;
use crate::protocol::packet::{Packet, PacketView, ProtocolError};
use vstd::prelude::*;

verus! {

/// A request that was made of a packet, to be handed to the simulation.
#[derive(Debug)]
pub struct Request {
    pub message: ClientMessage,
    /// Whether the simulation answers the request. The client then waits
    /// for the answer and writes the packets that it is turned into.
    pub expects_response: bool,
}

/// What a client was waiting for and got.
#[derive(Debug)]
pub enum ClientEvent {
    /// The socket gave a packet, or failed.
    PacketRead(Result<Packet, ProtocolError>),
    /// The simulation gave a message, or nothing because it has dropped
    /// the connection.
    ServerMessage(Option<ServerMessage>),
}

/// What a client does next.
#[derive(Debug)]
pub enum ClientStep {
    HandlePacket(Packet),
    HandleServerMessage(ServerMessage),
}

/// The packets as mathematical values, in the same order.
pub open spec fn packets_view(packets: Seq<Packet>) -> Seq<PacketView> {
    Seq::new(packets.len(), |i: int| packets[i]@)
}

/// Decides what a client does with what it got. A packet and a message
/// are handled. A failure of the socket ends the connection with that
/// failure, and so does the simulation when it has dropped the
/// connection.
pub fn run_client_step(event: ClientEvent) -> (step: Result<ClientStep, ProtocolError>)
    ensures
        match event {
            ClientEvent::PacketRead(Ok(packet)) => step matches Ok(ClientStep::HandlePacket(same))
                && same == packet,
            ClientEvent::PacketRead(Err(error)) => step matches Err(same) && same == error,
            ClientEvent::ServerMessage(Some(message)) => step matches Ok(
                ClientStep::HandleServerMessage(same),
            ) && same == message,
            ClientEvent::ServerMessage(None) => step matches Err(
                ProtocolError::ServerInitiatedDisconnect,
            ),
        },
{
    match event {
        ClientEvent::PacketRead(Ok(packet)) => Ok(ClientStep::HandlePacket(packet)),
        ClientEvent::PacketRead(Err(error)) => Err(error),
        ClientEvent::ServerMessage(Some(message)) => Ok(ClientStep::HandleServerMessage(message)),
        ClientEvent::ServerMessage(None) => Err(ProtocolError::ServerInitiatedDisconnect),
    }
}

} // verus!
