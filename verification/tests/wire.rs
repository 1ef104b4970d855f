use ossuary::packet::{
    interpret_packet, interpret_packet_extra, slice_as_struct, struct_as_slice, EncryptedPacket,
    NetworkPacket, PacketHeader, WireStruct, ENCRYPTED_PACKET_LEN, PACKET_HEADER_LEN,
};
use ossuary::{OssuaryError, PacketType, PACKET_BUF_SIZE, TAG_LEN};

#[test]
fn from_u16_known_codes() {
    assert_eq!(PacketType::from_u16(0x01), PacketType::ClientHandshake);
    assert_eq!(PacketType::from_u16(0x02), PacketType::ServerHandshake);
    assert_eq!(PacketType::from_u16(0x03), PacketType::ClientAuthentication);
    assert_eq!(PacketType::from_u16(0x10), PacketType::Disconnect);
    assert_eq!(PacketType::from_u16(0x11), PacketType::Reset);
    assert_eq!(PacketType::from_u16(0x20), PacketType::EncryptedData);
}

#[test]
fn from_u16_unknown_codes() {
    assert_eq!(PacketType::from_u16(0x00), PacketType::Unknown);
    assert_eq!(PacketType::from_u16(0x04), PacketType::Unknown);
    assert_eq!(PacketType::from_u16(0x12), PacketType::Unknown);
    assert_eq!(PacketType::from_u16(0xffff), PacketType::Unknown);
}

#[test]
fn packet_type_code_roundtrip() {
    let all = [
        PacketType::Unknown,
        PacketType::ClientHandshake,
        PacketType::ServerHandshake,
        PacketType::ClientAuthentication,
        PacketType::Disconnect,
        PacketType::Reset,
        PacketType::EncryptedData,
    ];
    for t in all.iter() {
        assert_eq!(PacketType::from_u16(t.to_u16()), *t);
    }
    assert_eq!(PacketType::EncryptedData.to_u16(), 0x20);
}

#[test]
fn header_bytes_layout() {
    let h = PacketHeader { len: 0x0102, msg_id: 3, packet_type: PacketType::EncryptedData, reserved: 0 };
    let mut expect = Vec::new();
    expect.extend_from_slice(&0x0102u16.to_ne_bytes());
    expect.extend_from_slice(&3u16.to_ne_bytes());
    expect.extend_from_slice(&0x20u16.to_ne_bytes());
    expect.extend_from_slice(&0u16.to_ne_bytes());
    assert_eq!(struct_as_slice(&h), expect);
    assert_eq!(PacketHeader::size(), PACKET_HEADER_LEN);
    assert_eq!(PACKET_HEADER_LEN, 8);
}

#[test]
fn header_roundtrip() {
    let h = PacketHeader { len: 65535, msg_id: 258, packet_type: PacketType::Reset, reserved: 7 };
    let bytes = struct_as_slice(&h);
    let back: PacketHeader = slice_as_struct(&bytes).unwrap();
    assert_eq!(back, h);
}

#[test]
fn header_unknown_type_reads_as_unknown() {
    let mut bytes = [0u8; 8];
    bytes[4..6].copy_from_slice(&0x99u16.to_ne_bytes());
    let h: PacketHeader = slice_as_struct(&bytes).unwrap();
    assert_eq!(h.packet_type, PacketType::Unknown);
    assert_eq!(h.len, 0);
}

#[test]
fn slice_too_short_is_invalid_struct() {
    let bytes = [1u8, 2, 3, 4, 5, 6, 7];
    let r: Result<PacketHeader, OssuaryError> = slice_as_struct(&bytes);
    assert_eq!(r, Err(OssuaryError::InvalidStruct));
    let r: Result<EncryptedPacket, OssuaryError> = slice_as_struct(&bytes[..3]);
    assert_eq!(r, Err(OssuaryError::InvalidStruct));
}

#[test]
fn slice_longer_reads_front() {
    let mut bytes = [9u8; 7];
    bytes[0..2].copy_from_slice(&5u16.to_ne_bytes());
    bytes[2..4].copy_from_slice(&16u16.to_ne_bytes());
    let e: EncryptedPacket = slice_as_struct(&bytes).unwrap();
    assert_eq!(e, EncryptedPacket { data_len: 5, tag_len: 16 });
    assert_eq!(EncryptedPacket::size(), ENCRYPTED_PACKET_LEN);
}

#[test]
fn packet_kind_and_interpret() {
    let enc = EncryptedPacket { data_len: 3, tag_len: TAG_LEN as u16 };
    let mut data = struct_as_slice(&enc);
    data.extend_from_slice(&[0xaa, 0xbb, 0xcc]);
    let pkt = NetworkPacket {
        header: PacketHeader { len: data.len() as u16, msg_id: 1, packet_type: PacketType::EncryptedData, reserved: 0 },
        data,
    };
    assert_eq!(pkt.kind(), PacketType::EncryptedData);
    let e: EncryptedPacket = interpret_packet(&pkt).unwrap();
    assert_eq!(e, enc);
    let (e2, rest): (EncryptedPacket, &[u8]) = interpret_packet_extra(&pkt).unwrap();
    assert_eq!(e2, enc);
    assert_eq!(rest, &[0xaa, 0xbb, 0xcc]);
}

#[test]
fn interpret_short_packet_fails() {
    let pkt = NetworkPacket {
        header: PacketHeader { len: 2, msg_id: 0, packet_type: PacketType::Disconnect, reserved: 0 },
        data: vec![1, 2],
    };
    let r: Result<EncryptedPacket, OssuaryError> = interpret_packet(&pkt);
    assert_eq!(r, Err(OssuaryError::InvalidStruct));
    let r: Result<(PacketHeader, &[u8]), OssuaryError> = interpret_packet_extra(&pkt);
    assert!(matches!(r, Err(OssuaryError::InvalidStruct)));
}

#[test]
fn interpret_extra_exact_length_leaves_nothing() {
    let h = PacketHeader { len: 1, msg_id: 2, packet_type: PacketType::ClientHandshake, reserved: 0 };
    let pkt = NetworkPacket { header: h, data: struct_as_slice(&h) };
    let (back, rest): (PacketHeader, &[u8]) = interpret_packet_extra(&pkt).unwrap();
    assert_eq!(back, h);
    assert!(rest.is_empty());
}

#[test]
fn packet_buffer_size() {
    assert_eq!(PACKET_BUF_SIZE, 16384 + 8 + 4 + 16);
}
