//! Server core of a multi-user online role-playing game: the tick-driven
//! simulation stages, the per-entity command state machine and the bridge
//! between wire packets and simulation messages.
//!
//! Everything here is a function from plain values to plain values. Sockets,
//! channels, the entity store, the clock and the disk stay with the caller,
//! which hands each stage what it received and carries out what the stage
//! returns.

pub mod data;
pub mod game;
pub mod irose;
pub mod protocol;
