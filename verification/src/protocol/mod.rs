//! The wire: packets, their frames, and the clients that turn packets
//! into requests and answers into packets.

pub mod client;
pub mod irose;
pub mod packet;
pub mod reader;
pub mod single;
pub mod writer;

pub use client::{run_client_step, ClientEvent, ClientStep, Request};
pub use packet::{Packet, ProtocolError};
