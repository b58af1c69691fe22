use bytes::{Bytes, BytesMut};
use rcon::error::{ClientError, PacketError};
use rcon::packet::packet_type::{RequestPacketType, ResponsePacketType};
use rcon::packet::{Packet, FRAME_LEN, HEADER_LEN};

fn encode(packet: Packet) -> Vec<u8> {
    Bytes::try_from(packet).expect("a small packet fits a buffer").to_vec()
}

fn decode(bytes: &[u8]) -> (Result<Packet, PacketError>, Vec<u8>) {
    let mut buffer = BytesMut::from(bytes);
    let res = Packet::try_from(&mut buffer);
    (res, buffer.to_vec())
}

#[test]
fn default_packet_is_an_empty_auth_request() {
    let packet = Packet::default();
    assert_eq!(packet.size, 10);
    assert_eq!(packet.identifier, 0);
    assert_eq!(packet.packet_type, 3);
    assert!(packet.payload.is_empty());
}

#[test]
fn builders_change_one_field_each() {
    let packet = Packet::default().identifier(-5);
    assert_eq!((packet.size, packet.identifier, packet.packet_type), (10, -5, 3));
    let packet = packet.request_packet_type(RequestPacketType::ServerDataExecCommand);
    assert_eq!((packet.size, packet.identifier, packet.packet_type), (10, -5, 2));
    let packet = packet.response_packet_type(ResponsePacketType::ServerDataResponseValue);
    assert_eq!((packet.size, packet.identifier, packet.packet_type), (10, -5, 0));
    let packet = packet.response_packet_type(ResponsePacketType::ServerDataAuthResponse);
    assert_eq!((packet.size, packet.identifier, packet.packet_type), (10, -5, 2));
    let packet = packet.request_packet_type(RequestPacketType::ServerDataAuth);
    assert_eq!((packet.size, packet.identifier, packet.packet_type), (10, -5, 3));
    let packet = packet.payload(vec![1, 2, 3]);
    assert_eq!((packet.size, packet.identifier, packet.packet_type), (13, -5, 3));
    assert_eq!(packet.payload, vec![1, 2, 3]);
    let packet = packet.payload(vec![]);
    assert_eq!(packet.size, 10);
    assert!(packet.payload.is_empty());
}

#[test]
fn encode_writes_the_fields_in_order() {
    let packet = Packet::default()
        .identifier(0x0403_0201)
        .request_packet_type(RequestPacketType::ServerDataExecCommand)
        .payload(b"Info".to_vec());
    assert_eq!(
        encode(packet),
        vec![14, 0, 0, 0, 1, 2, 3, 4, 2, 0, 0, 0, b'I', b'n', b'f', b'o', 0, 0]
    );
}

#[test]
fn encode_writes_a_negative_identifier_in_two_s_complement() {
    let bytes = encode(Packet::default().identifier(-1));
    assert_eq!(bytes, vec![10, 0, 0, 0, 0xff, 0xff, 0xff, 0xff, 3, 0, 0, 0, 0, 0]);
    let bytes = encode(Packet::default().identifier(i32::MIN));
    assert_eq!(&bytes[4..8], &[0, 0, 0, 0x80]);
    let bytes = encode(Packet::default().identifier(i32::MAX));
    assert_eq!(&bytes[4..8], &[0xff, 0xff, 0xff, 0x7f]);
    let bytes = encode(Packet::default().identifier(-2));
    assert_eq!(&bytes[4..8], &[0xfe, 0xff, 0xff, 0xff]);
}

#[test]
fn encode_writes_the_size_field_as_it_stands() {
    let packet = Packet { size: 0x0102, identifier: 0, packet_type: 0, payload: vec![9] };
    assert_eq!(encode(packet), vec![2, 1, 0, 0, 0, 0, 0, 0, 0, 0, 0, 0, 9, 0, 0]);
}

#[test]
fn encode_refuses_a_size_no_buffer_can_hold() {
    let packet = Packet { size: usize::MAX, identifier: 0, packet_type: 0, payload: vec![] };
    assert_eq!(Bytes::try_from(packet).err(), Some(PacketError::MalformedPacketError));
    let limit = isize::MAX as usize;
    let packet = Packet { size: limit - 3, identifier: 0, packet_type: 0, payload: vec![] };
    assert_eq!(Bytes::try_from(packet).err(), Some(PacketError::MalformedPacketError));
}

#[test]
fn encoded_length_is_fourteen_more_than_the_payload() {
    for len in [0usize, 1, 2, 7, 255, 256, 4082, 5000] {
        let packet = Packet::default().payload(vec![b'x'; len]);
        let size = packet.size;
        let bytes = encode(packet);
        assert_eq!(bytes.len(), 14 + len);
        assert_eq!(bytes.len(), 4 + size);
        assert_eq!(&bytes[bytes.len() - 2..], &[0, 0]);
    }
}

#[test]
fn decode_gives_back_what_encode_took() {
    let identifiers = [0, 1, -1, 7, i32::MIN, i32::MAX, 0x1234_5678, -0x1234_5678];
    let kinds = [0, 2, 3];
    let payloads: [&[u8]; 4] = [b"", b"a", b"passwrd", &[0, 0xff, 0x80, 0, 0, 1]];
    for identifier in identifiers {
        for kind in kinds {
            for payload in payloads {
                let packet = Packet { size: 0, identifier, packet_type: kind, payload: vec![] }
                    .payload(payload.to_vec());
                let (res, rest) = decode(&encode(packet));
                let back = res.expect("an encoded packet has a header");
                assert_eq!(back.size, 10 + payload.len());
                assert_eq!(back.identifier, identifier);
                assert_eq!(back.packet_type, kind);
                assert_eq!(back.payload, payload);
                assert_eq!(rest, vec![0, 0]);
            }
        }
    }
}

#[test]
fn decode_gives_back_a_long_payload() {
    let payload: Vec<u8> = (0..70_000u32).map(|i| (i % 251) as u8).collect();
    let packet = Packet::default().identifier(9).payload(payload.clone());
    let (res, rest) = decode(&encode(packet));
    let back = res.expect("an encoded packet has a header");
    assert_eq!(back.size, 70_010);
    assert_eq!(back.identifier, 9);
    assert_eq!(back.payload, payload);
    assert_eq!(rest, vec![0, 0]);
}

#[test]
fn decode_refuses_every_buffer_without_a_whole_header() {
    let bytes = [0x0au8, 0, 0, 0, 0, 0, 0, 0, 2, 0, 0, 0];
    for len in 0..HEADER_LEN {
        let (res, rest) = decode(&bytes[..len]);
        assert_eq!(res.err(), Some(PacketError::MalformedPacketError));
        assert_eq!(rest, &bytes[..len]);
    }
}

#[test]
fn decode_accepts_a_bare_header() {
    let (res, rest) = decode(&[0x0a, 0, 0, 0, 5, 0, 0, 0, 2, 0, 0, 0]);
    let packet = res.expect("twelve bytes are a header");
    assert_eq!(packet.size, 10);
    assert_eq!(packet.identifier, 5);
    assert_eq!(packet.packet_type, 2);
    assert!(packet.payload.is_empty());
    assert!(rest.is_empty());
}

#[test]
fn decode_takes_no_more_payload_than_is_there() {
    let mut bytes = vec![100u8, 0, 0, 0, 0, 0, 0, 0, 0, 0, 0, 0];
    bytes.extend_from_slice(b"short");
    let (res, rest) = decode(&bytes);
    let packet = res.expect("the header is whole");
    assert_eq!(packet.size, 100);
    assert_eq!(packet.payload, b"short");
    assert!(rest.is_empty());
}

#[test]
fn decode_takes_no_more_payload_than_announced() {
    let mut bytes = vec![13u8, 0, 0, 0, 1, 0, 0, 0, 0, 0, 0, 0];
    bytes.extend_from_slice(b"abc\0\0next packet");
    let (res, rest) = decode(&bytes);
    let packet = res.expect("the header is whole");
    assert_eq!(packet.size, 13);
    assert_eq!(packet.identifier, 1);
    assert_eq!(packet.payload, b"abc");
    assert_eq!(rest, b"\0\0next packet");
}

#[test]
fn decode_takes_no_payload_for_a_size_below_the_frame() {
    for size in 0..FRAME_LEN as u8 {
        let mut bytes = vec![size, 0, 0, 0, 0, 0, 0, 0, 0, 0, 0, 0];
        bytes.extend_from_slice(b"abc");
        let (res, rest) = decode(&bytes);
        let packet = res.expect("the header is whole");
        assert_eq!(packet.size, size as usize);
        assert!(packet.payload.is_empty());
        assert_eq!(rest, b"abc");
    }
}

#[test]
fn decode_reads_a_negative_size_as_a_large_one() {
    let mut bytes = vec![0xffu8, 0xff, 0xff, 0xff, 0, 0, 0, 0, 0, 0, 0, 0];
    bytes.extend_from_slice(b"all of it");
    let (res, rest) = decode(&bytes);
    let packet = res.expect("the header is whole");
    assert_eq!(packet.size, -1i32 as usize);
    assert_eq!(packet.payload, b"all of it");
    assert!(rest.is_empty());
}

#[test]
fn decode_reads_the_fields_little_endian() {
    let bytes = [0x0au8, 0, 0, 0, 0x78, 0x56, 0x34, 0x12, 0xfe, 0xff, 0xff, 0xff, 0, 0];
    let (res, _) = decode(&bytes);
    let packet = res.expect("the header is whole");
    assert_eq!(packet.identifier, 0x1234_5678);
    assert_eq!(packet.packet_type, -2);
}

#[test]
fn request_codes() {
    assert_eq!(RequestPacketType::ServerDataAuth.code(), 3);
    assert_eq!(RequestPacketType::ServerDataExecCommand.code(), 2);
    assert_eq!(RequestPacketType::from_i32(3), Some(RequestPacketType::ServerDataAuth));
    assert_eq!(RequestPacketType::from_i32(2), Some(RequestPacketType::ServerDataExecCommand));
    for code in [0, 1, 4, -1, i32::MIN, i32::MAX] {
        assert_eq!(RequestPacketType::from_i32(code), None);
        assert_eq!(RequestPacketType::from_code(code), Err(PacketError::MalformedPacketError));
    }
    assert_eq!(RequestPacketType::from_code(3), Ok(RequestPacketType::ServerDataAuth));
    assert_eq!(RequestPacketType::from_code(2), Ok(RequestPacketType::ServerDataExecCommand));
}

#[test]
fn response_codes() {
    assert_eq!(ResponsePacketType::ServerDataAuthResponse.code(), 2);
    assert_eq!(ResponsePacketType::ServerDataResponseValue.code(), 0);
    assert_eq!(ResponsePacketType::from_i32(2), Some(ResponsePacketType::ServerDataAuthResponse));
    assert_eq!(ResponsePacketType::from_i32(0), Some(ResponsePacketType::ServerDataResponseValue));
    for code in [1, 3, 4, -1, i32::MIN, i32::MAX] {
        assert_eq!(ResponsePacketType::from_i32(code), None);
        assert_eq!(ResponsePacketType::from_code(code), Err(PacketError::MalformedPacketError));
    }
    assert_eq!(ResponsePacketType::from_code(2), Ok(ResponsePacketType::ServerDataAuthResponse));
    assert_eq!(ResponsePacketType::from_code(0), Ok(ResponsePacketType::ServerDataResponseValue));
}

#[test]
fn codes_and_kinds_find_each_other() {
    for kind in [RequestPacketType::ServerDataAuth, RequestPacketType::ServerDataExecCommand] {
        assert_eq!(RequestPacketType::from_i32(kind.code()), Some(kind));
    }
    for kind in
        [ResponsePacketType::ServerDataAuthResponse, ResponsePacketType::ServerDataResponseValue]
    {
        assert_eq!(ResponsePacketType::from_i32(kind.code()), Some(kind));
    }
}

#[test]
fn error_messages() {
    assert_eq!(PacketError::MalformedPacketError.message(), "the packet is malformed");
    assert_eq!(ClientError::AuthenticationError.message(), "authentication failed");
}
