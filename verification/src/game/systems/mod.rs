//! The stages of a tick. Each is a function of what the scheduler found
//! for one entity or one connection.

pub mod client_entity_visibility;
pub mod command;
pub mod game_server;
pub mod login_server;
pub mod server_messages;
pub mod world_laws;
pub mod world_server;

pub use client_entity_visibility::client_entity_visibility;
pub use command::command;
pub use game_server::{
    game_server_authentication_system, game_server_join_system, game_server_main_system,
};
pub use login_server::{login_server, login_server_authentication};
pub use server_messages::server_messages_sender;
pub use world_server::{world_server_authentication_system, world_server_system};
