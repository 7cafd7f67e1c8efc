//! The data attached to entities.

pub mod account;
pub mod character_delete_time;
pub mod client_entity;
pub mod clients;
pub mod command;
pub mod entity;
pub mod health_points;
pub mod position;

pub use account::{Account, CharacterList};
pub use character_delete_time::{CharacterDeleteTime, DELETE_CHARACTER_SECS};
pub use client_entity::{ClientEntity, ClientEntityId};
pub use clients::{GameClient, LoginClient, ServerInfo, WorldClient};
pub use command::{Command, CommandAttack, CommandData, CommandMove, NextCommand};
pub use entity::Entity;
pub use health_points::HealthPoints;
pub use position::{Destination, Point3, Position};
