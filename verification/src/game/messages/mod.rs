//! What connections ask of the simulation and what it tells them.

pub mod client;
pub mod server;
