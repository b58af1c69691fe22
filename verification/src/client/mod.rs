//! The client operations: authenticate, and execute a command.
//!
//! The protocol does not mark the end of a reply, and a server splits a long
//! reply over several packets. A client therefore sends an empty packet with
//! another identifier right behind each command: the server answers in order,
//! so the echo of that identifier ends the reply.

pub mod response;
pub mod text;

use bytes::Bytes;
use vstd::prelude::*;
use vstd::slice::slice_to_vec;
use vstd::utf8::{decode_utf8, encode_utf8, valid_utf8};

use crate::client::response::AuthResponse;
use crate::client::text::from_utf8;
use crate::error::{ClientError, PacketError, RconError};
use crate::packet::buffer::{as_slice, from_slice, frozen};
use crate::packet::packet_type::{RequestPacketType, ResponsePacketType};
use crate::packet::{fits_buffer, parse, wire_bytes, Packet, PacketView, FRAME_LEN};

verus! {

/// The number of bytes asked of the transport at a time.
pub const CHUNK_LEN: usize = 4096;

/// The identifier of a request, which the parts of its reply carry.
pub const REQUEST_ID: i32 = 0;

/// The identifier of the empty packet that follows a command.
pub const END_MARKER_ID: i32 = 1;

/// A request of kind `kind` with identifier `REQUEST_ID` that carries `text`.
pub open spec fn request(kind: RequestPacketType, text: Seq<u8>) -> PacketView {
    PacketView {
        size: (FRAME_LEN + text.len()) as usize,
        identifier: REQUEST_ID,
        packet_type: kind.spec_code(),
        payload: text,
    }
}

/// The empty packet that follows a command.
pub open spec fn end_marker() -> PacketView {
    PacketView {
        size: FRAME_LEN,
        identifier: END_MARKER_ID,
        packet_type: ResponsePacketType::ServerDataResponseValue.spec_code(),
        payload: Seq::empty(),
    }
}

/// The bytes to send for a request of kind `kind` that carries `text`.
pub fn encode_request(kind: RequestPacketType, text: &str) -> (res: Result<Bytes, PacketError>)
    ensures
        fits_buffer(request(kind, encode_utf8(text@))) ==> (res matches Ok(bytes) && frozen(bytes)
            == wire_bytes(request(kind, encode_utf8(text@)))),
        !fits_buffer(request(kind, encode_utf8(text@))) ==> res == Err::<Bytes, PacketError>(
            PacketError::MalformedPacketError,
        ),
{
    let payload = slice_to_vec(text.as_bytes());
    if payload.len() > usize::MAX - FRAME_LEN {
        return Err(PacketError::MalformedPacketError);
    }
    Bytes::try_from(Packet::default().identifier(REQUEST_ID).request_packet_type(kind).payload(payload))
}

/// The bytes to send behind a command.
pub fn encode_end_marker() -> (res: Result<Bytes, PacketError>)
    ensures
        res matches Ok(bytes) && frozen(bytes) == wire_bytes(end_marker()),
{
    Bytes::try_from(
        Packet::default().identifier(END_MARKER_ID).response_packet_type(
            ResponsePacketType::ServerDataResponseValue,
        ),
    )
}

/// What the answer to a password means: identifier `REQUEST_ID` accepts, any
/// other identifier rejects.
pub fn auth_verdict(reply: &Packet) -> (res: Result<AuthResponse, ClientError>)
    ensures
        reply.identifier == REQUEST_ID ==> res == Ok::<AuthResponse, ClientError>(
            AuthResponse::AuthenticationSucceeded,
        ),
        reply.identifier != REQUEST_ID ==> res == Err::<AuthResponse, ClientError>(
            ClientError::AuthenticationError,
        ),
{
    if reply.identifier == REQUEST_ID {
        Ok(AuthResponse::AuthenticationSucceeded)
    } else {
        Err(ClientError::AuthenticationError)
    }
}

/// Takes one received packet into the output gathered so far. A packet with
/// identifier `REQUEST_ID` is a part of the reply: its payload is appended,
/// and the result is `true`. Any other packet ends the reply: `output` stays
/// as it is, and the result is `false`.
pub fn absorb(output: &mut Vec<u8>, packet: &Packet) -> (more: bool)
    ensures
        more == (packet.identifier == REQUEST_ID),
        more ==> final(output)@ == old(output)@ + packet.payload@,
        !more ==> final(output)@ == old(output)@,
{
    if packet.identifier != REQUEST_ID {
        return false;
    }
    output.extend_from_slice(packet.payload.as_slice());
    assert(output@ =~= old(output)@ + packet.payload@);
    true
}

/// The gathered output as text.
pub fn into_text<E>(output: Vec<u8>) -> (res: Result<String, RconError<E>>)
    ensures
        valid_utf8(output@) ==> (res matches Ok(text) && text@ == decode_utf8(output@)),
        !valid_utf8(output@) ==> res is Err && res->Err_0 is Text,
{
    match from_utf8(output) {
        Ok(text) => Ok(text),
        Err(e) => Err(RconError::Text(e)),
    }
}

/// Takes the outcome of one read into the output gathered so far, and says
/// whether the reply goes on.
///
/// A read that failed ends the reply: a reply has no other end than the echo
/// of the end marker, so a time-out is taken for one, and what was gathered
/// stands. A read that succeeded left a packet at the front of `chunk`, and
/// `absorb` decides on it. A chunk too short for a header is malformed.
pub fn take_read(output: &mut Vec<u8>, read_ok: bool, chunk: &[u8]) -> (res: Result<
    bool,
    PacketError,
>)
    ensures
        !read_ok ==> res == Ok::<bool, PacketError>(false) && final(output)@ == old(output)@,
        read_ok ==> match parse(chunk@) {
            Some(packet) => res == Ok::<bool, PacketError>(packet.identifier == REQUEST_ID)
                && final(output)@ == (if packet.identifier == REQUEST_ID {
                old(output)@ + packet.payload
            } else {
                old(output)@
            }),
            None => res == Err::<bool, PacketError>(PacketError::MalformedPacketError)
                && final(output)@ == old(output)@,
        },
{
    if !read_ok {
        return Ok(false);
    }
    let mut buffer = from_slice(chunk);
    match Packet::try_from(&mut buffer) {
        Ok(packet) => Ok(absorb(output, &packet)),
        Err(e) => Err(e),
    }
}

/// A connection to a server, and the two operations of the protocol on it.
///
/// An implementation provides `send` and `receive`. Nothing is assumed of
/// either, so what `auth` and `execute_command` promise holds for every
/// transport.
pub trait RconClient {
    /// The error of the transport.
    type Error;

    /// Sends `buf` to the server.
    fn send(&mut self, buf: &[u8]) -> Result<(), Self::Error>;

    /// Reads from the server into `buf`. It returns an error when nothing
    /// arrives within the time that the transport allows.
    fn receive(&mut self, buf: &mut [u8]) -> Result<(), Self::Error>;

    /// The read that follows a password before the answer is read. A server
    /// sends an empty `ServerDataResponseValue` ahead of its answer; nothing
    /// of it is kept.
    fn skip_empty_response(&mut self) -> Result<(), Self::Error> {
        let mut nothing: [u8; 0] = [];
        self.receive(&mut nothing)
    }

    /// Authenticates with `rcon_password`.
    ///
    /// Sends the password with identifier `REQUEST_ID` and reads the answer.
    /// The server accepts by echoing the identifier; any other identifier is
    /// a rejection.
    fn auth(&mut self, rcon_password: &str) -> (res: Result<AuthResponse, RconError<Self::Error>>)
        ensures
            !fits_buffer(request(RequestPacketType::ServerDataAuth, encode_utf8(rcon_password@)))
                ==> res matches Err(RconError::Packet(_)),
            fits_buffer(request(RequestPacketType::ServerDataAuth, encode_utf8(rcon_password@)))
                ==> res matches Ok(AuthResponse::AuthenticationSucceeded) || res matches Err(
                RconError::Transport(_),
            ) || res matches Err(RconError::Client(ClientError::AuthenticationError)),
    {
        let auth_packet = match encode_request(RequestPacketType::ServerDataAuth, rcon_password) {
            Ok(bytes) => bytes,
            Err(e) => {
                return Err(RconError::Packet(e));
            },
        };
        match self.send(as_slice(&auth_packet)) {
            Ok(()) => {},
            Err(e) => {
                return Err(RconError::Transport(e));
            },
        }
        match self.skip_empty_response() {
            Ok(()) => {},
            Err(e) => {
                return Err(RconError::Transport(e));
            },
        }
        let mut auth_bytes = [0u8; CHUNK_LEN];
        match self.receive(&mut auth_bytes) {
            Ok(()) => {},
            Err(e) => {
                return Err(RconError::Transport(e));
            },
        }
        let mut reply = from_slice(auth_bytes.as_slice());
        let auth_response_packet = match Packet::try_from(&mut reply) {
            Ok(packet) => packet,
            Err(e) => {
                return Err(RconError::Packet(e));
            },
        };
        match auth_verdict(&auth_response_packet) {
            Ok(answer) => Ok(answer),
            Err(e) => Err(RconError::Client(e)),
        }
    }

    /// Executes `command` and returns what the server prints.
    ///
    /// Sends the command with identifier `REQUEST_ID` and the end marker
    /// behind it, then reads `CHUNK_LEN` bytes at a time and hands the
    /// outcome of each read to `take_read`, for as long as that says that
    /// the reply goes on. What was gathered by then is the output, as
    /// `into_text` reads it. The reads are counted, and the count of a `u64`
    /// is their limit.
    fn execute_command(&mut self, command: &str) -> (res: Result<String, RconError<Self::Error>>)
        ensures
            !fits_buffer(request(RequestPacketType::ServerDataExecCommand, encode_utf8(command@)))
                ==> res matches Err(RconError::Packet(_)),
            fits_buffer(request(RequestPacketType::ServerDataExecCommand, encode_utf8(command@)))
                ==> res is Ok || res matches Err(RconError::Transport(_)) || res matches Err(
                RconError::Text(_),
            ),
    {
        let command_packet = match encode_request(
            RequestPacketType::ServerDataExecCommand,
            command,
        ) {
            Ok(bytes) => bytes,
            Err(e) => {
                return Err(RconError::Packet(e));
            },
        };
        match self.send(as_slice(&command_packet)) {
            Ok(()) => {},
            Err(e) => {
                return Err(RconError::Transport(e));
            },
        }
        let empty_packet = match encode_end_marker() {
            Ok(bytes) => bytes,
            Err(e) => {
                return Err(RconError::Packet(e));
            },
        };
        match self.send(as_slice(&empty_packet)) {
            Ok(()) => {},
            Err(e) => {
                return Err(RconError::Transport(e));
            },
        }
        let mut buf: Vec<u8> = Vec::new();
        let mut reads: u64 = 0;
        while reads < u64::MAX
            decreases u64::MAX - reads,
        {
            let mut receive_buf = [0u8; CHUNK_LEN];
            let read_ok = self.receive(&mut receive_buf).is_ok();
            match take_read(&mut buf, read_ok, receive_buf.as_slice()) {
                Ok(true) => {},
                Ok(false) => {
                    break ;
                },
                Err(e) => {
                    return Err(RconError::Packet(e));
                },
            }
            reads = reads + 1;
        }
        into_text(buf)
    }
}

} // verus!
