//! Error types of the packet codec and of the client operations.

use std::string::FromUtf8Error;
use vstd::prelude::*;

verus! {

/// Errors of encoding and decoding packets.
#[derive(Debug, Clone, Copy, PartialEq, Eq, Structural)]
pub enum PacketError {
    /// The bytes do not frame a packet, or a packet cannot be laid out.
    MalformedPacketError,
}

/// Errors of the client operations.
#[derive(Debug, Clone, Copy, PartialEq, Eq, Structural)]
pub enum ClientError {
    /// The server rejected the password.
    AuthenticationError,
}

/// Everything that can end a client operation early.
#[derive(Debug)]
pub enum RconError<E> {
    /// A packet could not be encoded or decoded.
    Packet(PacketError),
    /// The server turned the client down.
    Client(ClientError),
    /// The output of a command is not UTF-8.
    Text(FromUtf8Error),
    /// The transport failed; its error is passed on as it came.
    Transport(E),
}

impl PacketError {
    /// What went wrong, in words.
    pub fn message(&self) -> (text: String)
        ensures
            text@ == "the packet is malformed"@,
    {
        "the packet is malformed".to_owned()
    }
}

impl ClientError {
    /// What went wrong, in words.
    pub fn message(&self) -> (text: String)
        ensures
            text@ == "authentication failed"@,
    {
        "authentication failed".to_owned()
    }
}

} // verus!
