//! The simulation: components, resources, messages and the stages that
//! run on them each tick.

pub mod components;
pub mod game;
pub mod geometry;
pub mod messages;
pub mod resources;
pub mod systems;

pub use game::Game;
pub use resources::GameData;
