//! What is particular to the iROSE edition of the game: its data tables
//! and the packets of its world tier.

pub mod data;
pub mod protocol;
