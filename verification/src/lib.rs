//! Client side of the Source RCON protocol: packet framing, the
//! authentication handshake and the reassembly of fragmented replies.

pub mod client;
pub mod error;
pub mod packet;
