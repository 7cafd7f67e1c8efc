//! The state that all stages share.

pub mod client_entity_id_list;
pub mod game_data;
pub mod login_tokens;
pub mod server_list;
pub mod server_messages;
pub mod world_time;

pub use client_entity_id_list::ClientEntityIdList;
pub use game_data::GameData;
pub use login_tokens::{LoginToken, LoginTokens};
pub use server_list::{GameServer, ServerList, WorldServer};
pub use server_messages::{MessageScope, PendingMessage, ServerMessages};
pub use world_time::{DeltaTime, WorldTime};
