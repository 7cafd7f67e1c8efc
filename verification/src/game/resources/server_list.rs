use crate::game::components::entity::Entity;
use vstd::prelude::*;

verus! {

/// A channel of a world: a game server that clients can play on.
#[derive(Debug)]
pub struct GameServer {
    pub entity: Entity,
    pub name: String,
    pub ip: String,
    pub port: u16,
    pub packet_codec_seed: u32,
}

/// A world server and its channels. The position of a channel in the list
/// is the id that clients name it by.
#[derive(Debug)]
pub struct WorldServer {
    pub entity: Entity,
    pub name: String,
    pub ip: String,
    pub port: u16,
    pub packet_codec_seed: u32,
    pub channels: Vec<GameServer>,
}

/// The world servers that have registered. The position of a world in the
/// list is the id that clients name it by.
#[derive(Debug)]
pub struct ServerList {
    pub world_servers: Vec<WorldServer>,
}

impl ServerList {
    pub fn new() -> (list: Self)
        ensures
            list.world_servers@.len() == 0,
    {
        Self { world_servers: Vec::new() }
    }
}

impl Default for ServerList {
    fn default() -> (list: Self)
        ensures
            list.world_servers@.len() == 0,
    {
        Self::new()
    }
}

} // verus!
