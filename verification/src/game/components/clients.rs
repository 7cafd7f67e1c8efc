//! What the simulation keeps of each connection.

use crate::game::components::entity::Entity;
use crate::game::messages::client::ClientMessage;
use crate::game::messages::server::ServerMessage;
use vstd::prelude::*;

verus! {

/// A connection to the login tier.
#[derive(Copy, Clone, Debug, PartialEq, Eq, Structural)]
pub struct LoginClient {
    /// The token that was made for the connection when it joined a
    /// server, 0 before that.
    pub login_token: u32,
}

impl LoginClient {
    pub fn new() -> (client: Self)
        ensures
            client.login_token == 0,
    {
        Self { login_token: 0 }
    }
}

/// A connection to the world tier.
#[derive(Copy, Clone, Debug, PartialEq, Eq, Structural)]
pub struct WorldClient {
    /// The token that the connection presented, 0 before that.
    pub login_token: u32,
    /// The game server that was chosen at login.
    pub selected_game_server: Option<Entity>,
}

impl WorldClient {
    pub fn new() -> (client: Self)
        ensures
            client.login_token == 0,
            client.selected_game_server.is_none(),
    {
        Self { login_token: 0, selected_game_server: None }
    }
}

/// A connection to the game tier.
#[derive(Debug)]
pub struct GameClient {
    /// The token that the connection presented, 0 before that.
    pub login_token: u32,
    /// The requests that arrived and that no stage of this tick has read
    /// yet.
    pub pending_messages: Vec<ClientMessage>,
    /// The messages that wait to be written to the connection, oldest
    /// first.
    pub outbound_messages: Vec<ServerMessage>,
}

impl GameClient {
    pub fn new() -> (client: Self)
        ensures
            client.login_token == 0,
            client.pending_messages@.len() == 0,
            client.outbound_messages@.len() == 0,
    {
        Self { login_token: 0, pending_messages: Vec::new(), outbound_messages: Vec::new() }
    }
}

/// How a server of the list can be reached. Each registered server is an
/// entity with this component.
#[derive(Debug)]
pub struct ServerInfo {
    pub name: String,
    pub ip: String,
    pub port: u16,
    pub packet_codec_seed: u32,
}

/// How a server can be reached, as a mathematical value.
pub struct ServerInfoView {
    pub name: Seq<char>,
    pub ip: Seq<char>,
    pub port: u16,
    pub packet_codec_seed: u32,
}

impl View for ServerInfo {
    type V = ServerInfoView;

    open spec fn view(&self) -> ServerInfoView {
        ServerInfoView {
            name: self.name@,
            ip: self.ip@,
            port: self.port,
            packet_codec_seed: self.packet_codec_seed,
        }
    }
}

} // verus!
