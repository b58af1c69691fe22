//! The packet of the protocol and its form on the wire.
//!
//! On the wire a packet is a little-endian `size`, `identifier` and
//! `packet_type` of four bytes each, the payload, and two zero bytes. `size`
//! counts everything behind itself.

pub mod buffer;
pub mod packet_type;
pub mod wire;

use bytes::{Bytes, BytesMut};
use vstd::prelude::*;
use vstd::std_specs::convert::TryFromSpecImpl;

use crate::error::PacketError;
use crate::packet::buffer::{
    frozen, get_i32_le, held, into_vec, put_i32_le, put_slice, to_i32,
};
use crate::packet::packet_type::{RequestPacketType, ResponsePacketType};
use crate::packet::wire::{i32_from_le_bytes, i32_le_bytes, lemma_i32_le_round_trip};

verus! {

/// The bytes of a packet before its payload.
pub const HEADER_LEN: usize = 12;

/// The part of `size` that is not payload: identifier, type and trailer.
pub const FRAME_LEN: usize = 10;

/// One packet: what is sent or received as a unit.
#[derive(Debug)]
pub struct Packet {
    /// The length of everything behind the size field.
    pub size: usize,
    /// Chosen by the client and echoed by the server.
    pub identifier: i32,
    /// The code of the packet's kind.
    pub packet_type: i32,
    /// Password, command or output, as bytes.
    pub payload: Vec<u8>,
}

/// A packet as a mathematical value.
pub struct PacketView {
    pub size: usize,
    pub identifier: i32,
    pub packet_type: i32,
    pub payload: Seq<u8>,
}

impl View for Packet {
    type V = PacketView;

    open spec fn view(&self) -> PacketView {
        PacketView {
            size: self.size,
            identifier: self.identifier,
            packet_type: self.packet_type,
            payload: self.payload@,
        }
    }
}

impl PacketView {
    /// `size` is what the payload makes it.
    pub open spec fn well_formed(self) -> bool {
        self.size == FRAME_LEN + self.payload.len()
    }
}

/// The bytes that stand for `packet` on the wire. A `size` beyond 32 bits
/// keeps its low 32 bits.
pub open spec fn wire_bytes(packet: PacketView) -> Seq<u8> {
    i32_le_bytes(packet.size as i32) + i32_le_bytes(packet.identifier) + i32_le_bytes(
        packet.packet_type,
    ) + packet.payload + seq![0u8, 0u8]
}

/// How many payload bytes a packet of size `size` announces: `size` without
/// the frame, and none where `size` is less than the frame.
pub open spec fn announced_payload_len(size: usize) -> int {
    if size >= FRAME_LEN {
        size - FRAME_LEN
    } else {
        0
    }
}

/// How many payload bytes a packet at the front of `bytes` has: as many as
/// its size field announces, or as many as are there, if those are fewer.
pub open spec fn payload_len(bytes: Seq<u8>) -> int
    recommends
        bytes.len() >= HEADER_LEN,
{
    let announced = announced_payload_len(i32_from_le_bytes(bytes) as usize);
    if announced <= bytes.len() - HEADER_LEN {
        announced
    } else {
        bytes.len() - HEADER_LEN
    }
}

/// The packet at the front of `bytes`, if `bytes` holds a whole header.
///
/// The size field is a signed number on the wire and an unsigned one in a
/// packet. A negative field is read as its bit pattern, sign-extended to the
/// width of `usize`: a size above `isize::MAX`. Such a packet announces more
/// than any buffer holds, so all that follows the header is its payload.
pub open spec fn parse(bytes: Seq<u8>) -> Option<PacketView> {
    if bytes.len() < HEADER_LEN {
        None
    } else {
        Some(
            PacketView {
                size: i32_from_le_bytes(bytes) as usize,
                identifier: i32_from_le_bytes(bytes.skip(4)),
                packet_type: i32_from_le_bytes(bytes.skip(8)),
                payload: bytes.subrange(HEADER_LEN as int, HEADER_LEN + payload_len(bytes)),
            },
        )
    }
}

impl Default for Packet {
    /// An authentication request with identifier 0 and no payload.
    fn default() -> (packet: Packet)
        ensures
            packet@ == (PacketView {
                size: FRAME_LEN,
                identifier: 0,
                packet_type: RequestPacketType::ServerDataAuth.spec_code(),
                payload: Seq::empty(),
            }),
    {
        Packet {
            size: FRAME_LEN,
            identifier: 0,
            packet_type: RequestPacketType::ServerDataAuth.code(),
            payload: Vec::new(),
        }
    }
}

impl Packet {
    /// This packet with `identifier` in place of its identifier.
    pub fn identifier(self, identifier: i32) -> (packet: Packet)
        ensures
            packet@ == (PacketView { identifier, ..self@ }),
    {
        let mut packet = self;
        packet.identifier = identifier;
        packet
    }

    /// This packet as a request of kind `packet_type`.
    pub fn request_packet_type(self, packet_type: RequestPacketType) -> (packet: Packet)
        ensures
            packet@ == (PacketView { packet_type: packet_type.spec_code(), ..self@ }),
    {
        let mut packet = self;
        packet.packet_type = packet_type.code();
        packet
    }

    /// This packet as a response of kind `packet_type`.
    pub fn response_packet_type(self, packet_type: ResponsePacketType) -> (packet: Packet)
        ensures
            packet@ == (PacketView { packet_type: packet_type.spec_code(), ..self@ }),
    {
        let mut packet = self;
        packet.packet_type = packet_type.code();
        packet
    }

    /// This packet with `payload` in place of its payload, and the size that
    /// goes with it.
    pub fn payload(self, payload: Vec<u8>) -> (packet: Packet)
        requires
            FRAME_LEN + payload@.len() <= usize::MAX,
        ensures
            packet@ == (PacketView {
                size: (FRAME_LEN + payload@.len()) as usize,
                payload: payload@,
                ..self@
            }),
            packet@.well_formed(),
    {
        let mut packet = self;
        packet.size = FRAME_LEN + payload.len();
        packet.payload = payload;
        packet
    }
}

impl TryFrom<&mut BytesMut> for Packet {
    type Error = PacketError;

    /// Takes one packet from the front of `bytes`. The two bytes that close a
    /// packet stay in the buffer.
    fn try_from(bytes: &mut BytesMut) -> (res: Result<Packet, PacketError>)
        ensures
            res is Err <==> held(*old(bytes)).len() < HEADER_LEN,
            match parse(held(*old(bytes))) {
                Some(packet) => {
                    &&& res matches Ok(p)
                    &&& p@ == packet
                    &&& held(*final(bytes)) == held(*old(bytes)).skip(
                        HEADER_LEN + payload_len(held(*old(bytes))),
                    )
                },
                None => {
                    &&& res == Err::<Packet, PacketError>(PacketError::MalformedPacketError)
                    &&& held(*final(bytes)) == held(*old(bytes))
                },
            },
    {
        if bytes.len() < HEADER_LEN {
            return Err(PacketError::MalformedPacketError);
        }
        let ghost before = held(*bytes);
        let size = #[verifier::truncate] (get_i32_le(bytes) as usize);
        let identifier = get_i32_le(bytes);
        assert(held(*bytes) =~= before.skip(8));
        let packet_type = get_i32_le(bytes);
        assert(held(*bytes) =~= before.skip(HEADER_LEN as int));
        let announced = if size >= FRAME_LEN {
            size - FRAME_LEN
        } else {
            0
        };
        let take = if announced <= bytes.len() {
            announced
        } else {
            bytes.len()
        };
        let payload = into_vec(bytes.split_to(take));
        assert(payload@ =~= before.subrange(HEADER_LEN as int, HEADER_LEN + take));
        assert(held(*bytes) =~= before.skip(HEADER_LEN + take));
        Ok(Packet { size, identifier, packet_type, payload })
    }
}

/// What `try_from` returns is stated on `try_from`, together with what it
/// leaves in the buffer.
impl TryFromSpecImpl<&mut BytesMut> for Packet {
    open spec fn obeys_try_from_spec() -> bool {
        false
    }

    open spec fn try_from_spec(bytes: &mut BytesMut) -> Result<Packet, PacketError> {
        Err(PacketError::MalformedPacketError)
    }
}

/// A packet can be laid out in a buffer: neither the room that `size` asks
/// for nor the bytes themselves exceed what a buffer can hold.
pub open spec fn fits_buffer(packet: PacketView) -> bool {
    &&& packet.size + 4 <= isize::MAX
    &&& HEADER_LEN + packet.payload.len() + 2 <= isize::MAX
}

impl TryFrom<Packet> for Bytes {
    type Error = PacketError;

    /// Lays `packet` out as it goes over the wire.
    fn try_from(packet: Packet) -> (res: Result<Bytes, PacketError>)
        ensures
            fits_buffer(packet@) ==> (res matches Ok(bytes) && frozen(bytes) == wire_bytes(
                packet@,
            )),
            !fits_buffer(packet@) ==> res == Err::<Bytes, PacketError>(
                PacketError::MalformedPacketError,
            ),
            res matches Ok(bytes) ==> frozen(bytes).len() == HEADER_LEN + packet.payload@.len() + 2,
    {
        let limit = isize::MAX as usize;
        if packet.size > limit - 4 || packet.payload.len() > limit - HEADER_LEN - 2 {
            return Err(PacketError::MalformedPacketError);
        }
        let mut buffer = BytesMut::with_capacity(packet.size + 4);
        put_i32_le(&mut buffer, #[verifier::truncate] (packet.size as i32));
        put_i32_le(&mut buffer, packet.identifier);
        let packet_type = match to_i32(packet.packet_type) {
            Some(code) => code,
            None => {
                return Err(PacketError::MalformedPacketError);
            },
        };
        put_i32_le(&mut buffer, packet_type);
        put_slice(&mut buffer, packet.payload.as_slice());
        let trailer = [0u8, 0u8];
        put_slice(&mut buffer, trailer.as_slice());
        assert(trailer@ =~= seq![0u8, 0u8]);
        Ok(buffer.freeze())
    }
}

/// What `try_from` returns is stated on `try_from`, over the bytes that the
/// result holds.
impl TryFromSpecImpl<Packet> for Bytes {
    open spec fn obeys_try_from_spec() -> bool {
        false
    }

    open spec fn try_from_spec(packet: Packet) -> Result<Bytes, PacketError> {
        Err(PacketError::MalformedPacketError)
    }
}

/// The wire form of a packet is fourteen bytes longer than its payload, which
/// for a well-formed packet is four bytes more than its size.
pub proof fn lemma_wire_len(packet: PacketView)
    ensures
        wire_bytes(packet).len() == HEADER_LEN + packet.payload.len() + 2,
        packet.well_formed() ==> wire_bytes(packet).len() == 4 + packet.size,
{
}

/// Parsing the wire form of a well-formed packet whose size fits the size
/// field gives the packet back, and leaves the two closing bytes.
pub proof fn lemma_round_trip(packet: PacketView)
    requires
        packet.well_formed(),
        packet.size <= i32::MAX,
    ensures
        parse(wire_bytes(packet)) == Some(packet),
        wire_bytes(packet).skip(HEADER_LEN + payload_len(wire_bytes(packet))) == seq![0u8, 0u8],
{
    let size = i32_le_bytes(packet.size as i32);
    let identifier = i32_le_bytes(packet.identifier);
    let packet_type = i32_le_bytes(packet.packet_type);
    let tail = packet.payload + seq![0u8, 0u8];
    let wire = wire_bytes(packet);
    lemma_i32_le_round_trip(packet.size as i32, identifier + packet_type + tail);
    lemma_i32_le_round_trip(packet.identifier, packet_type + tail);
    lemma_i32_le_round_trip(packet.packet_type, tail);
    assert(wire =~= size + (identifier + packet_type + tail));
    assert(wire.skip(4) =~= identifier + (packet_type + tail));
    assert(wire.skip(8) =~= packet_type + tail);
    assert(payload_len(wire) == packet.payload.len());
    assert(wire.subrange(HEADER_LEN as int, HEADER_LEN + payload_len(wire)) =~= packet.payload);
    assert(wire.skip(HEADER_LEN + payload_len(wire)) =~= seq![0u8, 0u8]);
}

/// Fewer than twelve bytes hold no packet, and twelve or more always do.
pub proof fn lemma_parse_needs_header(bytes: Seq<u8>)
    ensures
        parse(bytes) is None <==> bytes.len() < HEADER_LEN,
{
}

/// The payload of a parsed packet never reaches past the bytes that are
/// there: a packet that announces more than follows its header gets all that
/// follows, and no more.
pub proof fn lemma_payload_clamped(bytes: Seq<u8>)
    requires
        bytes.len() >= HEADER_LEN,
    ensures
        0 <= payload_len(bytes) <= bytes.len() - HEADER_LEN,
        parse(bytes) matches Some(packet) && packet.payload.len() == payload_len(bytes),
        announced_payload_len(i32_from_le_bytes(bytes) as usize) >= bytes.len() - HEADER_LEN
            ==> parse(bytes).unwrap().payload == bytes.skip(HEADER_LEN as int),
        announced_payload_len(i32_from_le_bytes(bytes) as usize) <= bytes.len() - HEADER_LEN
            ==> payload_len(bytes) == announced_payload_len(i32_from_le_bytes(bytes) as usize),
{
    assert(bytes.subrange(HEADER_LEN as int, bytes.len() as int) =~= bytes.skip(HEADER_LEN as int));
}

/// A negative size field makes a size above `isize::MAX`, and the payload is
/// all that follows the header.
pub proof fn lemma_negative_size_takes_all(bytes: Seq<u8>)
    requires
        HEADER_LEN <= bytes.len() <= isize::MAX,
        i32_from_le_bytes(bytes) < 0,
    ensures
        parse(bytes) matches Some(packet) && packet.size > isize::MAX && packet.payload
            == bytes.skip(HEADER_LEN as int),
{
    let field = i32_from_le_bytes(bytes);
    let size = field as usize;
    assert(field < 0 ==> ((field as usize) as isize) < 0) by (bit_vector);
    assert(size > isize::MAX) by {
        if size <= isize::MAX {
            assert(size as isize == size);
        }
    }
    lemma_payload_clamped(bytes);
}

} // verus!
