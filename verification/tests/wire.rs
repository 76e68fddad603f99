use po::wire::error::WireError;
use po::wire::frame_type::FrameType;
use po::wire::header::{FrameFlags, FrameHeader, TYPE_MASK};
use po::wire::varint::{decode, encode, encoded_len, VARINT_MAX};

// ---- varint ----

#[test]
fn roundtrip_1byte() {
    let mut buf = [0u8; 8];
    for v in [0, 1, 42, 63] {
        let n = encode(v, &mut buf).unwrap();
        assert_eq!(n, 1, "value {v} should encode in 1 byte");
        let (decoded, consumed) = decode(&buf[..n]).unwrap();
        assert_eq!(decoded, v);
        assert_eq!(consumed, 1);
    }
}

#[test]
fn roundtrip_2bytes() {
    let mut buf = [0u8; 8];
    for v in [64, 100, 15293, 16383] {
        let n = encode(v, &mut buf).unwrap();
        assert_eq!(n, 2, "value {v} should encode in 2 bytes");
        let (decoded, consumed) = decode(&buf[..n]).unwrap();
        assert_eq!(decoded, v);
        assert_eq!(consumed, 2);
    }
}

#[test]
fn roundtrip_4bytes() {
    let mut buf = [0u8; 8];
    for v in [16384, 100_000, 1_073_741_823] {
        let n = encode(v, &mut buf).unwrap();
        assert_eq!(n, 4, "value {v} should encode in 4 bytes");
        let (decoded, consumed) = decode(&buf[..n]).unwrap();
        assert_eq!(decoded, v);
        assert_eq!(consumed, 4);
    }
}

#[test]
fn roundtrip_8bytes() {
    let mut buf = [0u8; 8];
    for v in [1_073_741_824, u64::MAX >> 2, VARINT_MAX] {
        let n = encode(v, &mut buf).unwrap();
        assert_eq!(n, 8, "value {v} should encode in 8 bytes");
        let (decoded, consumed) = decode(&buf[..n]).unwrap();
        assert_eq!(decoded, v);
        assert_eq!(consumed, 8);
    }
}

#[test]
fn encoded_len_matches() {
    assert_eq!(encoded_len(0), 1);
    assert_eq!(encoded_len(63), 1);
    assert_eq!(encoded_len(64), 2);
    assert_eq!(encoded_len(16383), 2);
    assert_eq!(encoded_len(16384), 4);
    assert_eq!(encoded_len(1_073_741_823), 4);
    assert_eq!(encoded_len(1_073_741_824), 8);
}

#[test]
fn overflow_rejected() {
    let mut buf = [0u8; 8];
    assert_eq!(encode(VARINT_MAX + 1, &mut buf), Err(WireError::InvalidVarInt));
}

#[test]
fn buffer_too_small() {
    let mut buf = [0u8; 1];
    assert!(matches!(
        encode(15293, &mut buf),
        Err(WireError::BufferTooSmall { needed: 2, .. })
    ));
}

#[test]
fn varint_incomplete_decode() {
    let buf = [0x40];
    assert!(matches!(
        decode(&buf),
        Err(WireError::Incomplete { needed_min: 2, available: 1 })
    ));
}

#[test]
fn empty_decode() {
    assert!(matches!(
        decode(&[]),
        Err(WireError::Incomplete { needed_min: 1, available: 0 })
    ));
}

#[test]
fn boundary_values() {
    let mut buf = [0u8; 8];
    let boundaries = [63, 64, 16383, 16384, 1_073_741_823, 1_073_741_824];
    for v in boundaries {
        let n = encode(v, &mut buf).unwrap();
        let (decoded, _) = decode(&buf[..n]).unwrap();
        assert_eq!(decoded, v, "boundary value {v} failed roundtrip");
    }
}

#[test]
fn varint_exact_bytes() {
    // RFC 9000 appendix A examples.
    let mut buf = [0u8; 8];
    assert_eq!(encode(151_288_809_941_952_652, &mut buf), Ok(8));
    assert_eq!(buf, [0xc2, 0x19, 0x7c, 0x5e, 0xff, 0x14, 0xe8, 0x8c]);
    let mut buf = [0u8; 4];
    assert_eq!(encode(494_878_333, &mut buf), Ok(4));
    assert_eq!(buf, [0x9d, 0x7f, 0x3e, 0x7d]);
    let mut buf = [0u8; 2];
    assert_eq!(encode(15_293, &mut buf), Ok(2));
    assert_eq!(buf, [0x7b, 0xbd]);
    let mut buf = [0u8; 1];
    assert_eq!(encode(37, &mut buf), Ok(1));
    assert_eq!(buf, [0x25]);
}

#[test]
fn varint_non_minimal_decode() {
    // 37 written in two bytes is accepted and consumes both bytes.
    assert_eq!(decode(&[0x40, 0x25]), Ok((37, 2)));
}

#[test]
fn varint_encode_keeps_tail() {
    let mut buf = [0xAAu8; 4];
    assert_eq!(encode(5, &mut buf), Ok(1));
    assert_eq!(buf, [5, 0xAA, 0xAA, 0xAA]);
}

#[test]
fn varint_error_leaves_buffer() {
    let mut buf = [0xAAu8; 3];
    assert_eq!(
        encode(100_000, &mut buf),
        Err(WireError::BufferTooSmall { needed: 4, available: 3 })
    );
    assert_eq!(buf, [0xAA; 3]);
    assert_eq!(encode(u64::MAX, &mut buf), Err(WireError::InvalidVarInt));
}

// ---- frame types ----

#[test]
fn all_types_roundtrip() {
    let types = [
        (0x00, FrameType::Data),
        (0x01, FrameType::HandshakeInit),
        (0x02, FrameType::HandshakeReply),
        (0x03, FrameType::HandshakeComplete),
        (0x04, FrameType::Ping),
        (0x05, FrameType::Pong),
        (0x06, FrameType::Close),
        (0x07, FrameType::FileHeader),
        (0x08, FrameType::FileChunk),
        (0x09, FrameType::Ack),
    ];
    for (byte, expected) in types {
        assert_eq!(FrameType::from_u8(byte), Ok(expected));
        assert_eq!(expected as u8, byte);
        assert_eq!(expected.code(), byte);
    }
}

#[test]
fn frame_type_unknown_type_rejected() {
    for byte in 0x0A..=0x0F {
        assert!(matches!(
            FrameType::from_u8(byte),
            Err(WireError::UnknownFrameType(_))
        ));
    }
}

#[test]
fn classification() {
    assert!(FrameType::HandshakeInit.is_handshake());
    assert!(FrameType::HandshakeReply.is_handshake());
    assert!(FrameType::HandshakeComplete.is_handshake());
    assert!(!FrameType::Data.is_handshake());

    assert!(FrameType::Ping.is_control());
    assert!(FrameType::Pong.is_control());
    assert!(FrameType::Close.is_control());
    assert!(!FrameType::Data.is_control());

    assert!(FrameType::FileHeader.is_file_transfer());
    assert!(FrameType::FileChunk.is_file_transfer());
    assert!(!FrameType::Data.is_file_transfer());
}

#[test]
fn frame_type_names() {
    assert_eq!(FrameType::Data.to_display_string(), "DATA");
    assert_eq!(FrameType::HandshakeInit.to_display_string(), "HS_INIT");
    assert_eq!(FrameType::FileHeader.to_display_string(), "FILE_HDR");
    assert_eq!(FrameType::Ack.to_display_string(), "ACK");
}

// ---- headers ----

#[test]
fn minimal_data_header() {
    let h = FrameHeader::data(0, 0);
    let mut buf = [0u8; 32];
    let n = h.encode(&mut buf).unwrap();
    assert_eq!(n, 4, "minimum header should be 4 bytes");
    assert_eq!(buf[0] & TYPE_MASK, 0x00);
    assert_eq!(buf[0] & 0xF0, 0x00);

    let (decoded, consumed) = FrameHeader::decode(&buf[..n]).unwrap();
    assert_eq!(decoded, h);
    assert_eq!(consumed, n);
}

#[test]
fn data_with_flags() {
    let h = FrameHeader::data(1, 100)
        .with_encrypted()
        .with_priority()
        .with_stream(42);

    let mut buf = [0u8; 32];
    let n = h.encode(&mut buf).unwrap();
    assert_eq!(buf[0], 0x60);

    let (decoded, consumed) = FrameHeader::decode(&buf[..n]).unwrap();
    assert_eq!(decoded, h);
    assert_eq!(consumed, n);
}

#[test]
fn control_ping() {
    let h = FrameHeader::control(FrameType::Ping);
    let mut buf = [0u8; 32];
    let n = h.encode(&mut buf).unwrap();
    assert_eq!(buf[0], 0x84);
    assert_eq!(n, 4);

    let (decoded, _) = FrameHeader::decode(&buf[..n]).unwrap();
    assert!(decoded.flags.control);
    assert_eq!(decoded.frame_type, FrameType::Ping);
}

#[test]
fn handshake_type() {
    for ft in [
        FrameType::HandshakeInit,
        FrameType::HandshakeReply,
        FrameType::HandshakeComplete,
    ] {
        let h = FrameHeader {
            frame_type: ft,
            flags: FrameFlags::default(),
            channel_id: 0,
            stream_id: 0,
            payload_len: 128,
        };
        let mut buf = [0u8; 32];
        let n = h.encode(&mut buf).unwrap();
        let (decoded, _) = FrameHeader::decode(&buf[..n]).unwrap();
        assert_eq!(decoded.frame_type, ft);
        assert!(decoded.frame_type.is_handshake());
    }
}

#[test]
fn large_values() {
    let h = FrameHeader {
        frame_type: FrameType::FileChunk,
        flags: FrameFlags { control: false, priority: true, encrypted: true },
        channel_id: 1_000_000,
        stream_id: 9_999_999_999,
        payload_len: 4_294_967_296,
    };
    let mut buf = [0u8; 32];
    let n = h.encode(&mut buf).unwrap();
    let (decoded, consumed) = FrameHeader::decode(&buf[..n]).unwrap();
    assert_eq!(decoded, h);
    assert_eq!(consumed, n);
}

#[test]
fn encoded_len_accurate() {
    let h = FrameHeader::data(42, 100).with_stream(12345);
    assert_eq!(h.encoded_len(), h.encode(&mut [0u8; 32]).unwrap());
}

#[test]
fn header_incomplete_decode() {
    let buf = [0x00, 0x00];
    match FrameHeader::decode(&buf) {
        Err(WireError::Incomplete { .. }) => {}
        other => panic!("expected Incomplete, got {other:?}"),
    }
}

#[test]
fn header_unknown_type_rejected() {
    let buf = [0x0F, 0x00, 0x00, 0x00];
    assert!(matches!(
        FrameHeader::decode(&buf),
        Err(WireError::UnknownFrameType(0x0F))
    ));
}

#[test]
fn display_format() {
    let h = FrameHeader::data(5, 42).with_encrypted();
    let s = h.to_display_string();
    assert!(s.contains("DATA"));
    assert!(s.contains("ch=5"));
    assert!(s.contains("len=42"));
    assert!(s.contains("E"));
}

#[test]
fn display_format_exact() {
    let h = FrameHeader::control(FrameType::Close).with_priority().with_stream(7);
    assert_eq!(h.to_display_string(), "[CLOSE] ch=0 stream=7 len=0 flags=[CP]");
    let h = FrameHeader::data(123, 4096);
    assert_eq!(h.to_display_string(), "[DATA] ch=123 stream=0 len=4096 flags=[]");
}

#[test]
fn all_frame_types_encode_decode() {
    let types = [
        FrameType::Data,
        FrameType::HandshakeInit,
        FrameType::HandshakeReply,
        FrameType::HandshakeComplete,
        FrameType::Ping,
        FrameType::Pong,
        FrameType::Close,
        FrameType::FileHeader,
        FrameType::FileChunk,
        FrameType::Ack,
    ];
    for ft in types {
        let h = FrameHeader {
            frame_type: ft,
            flags: FrameFlags::default(),
            channel_id: 0,
            stream_id: 0,
            payload_len: 0,
        };
        let mut buf = [0u8; 32];
        let n = h.encode(&mut buf).unwrap();
        let (decoded, _) = FrameHeader::decode(&buf[..n]).unwrap();
        assert_eq!(decoded.frame_type, ft, "type {:?} failed roundtrip", ft);
    }
}

#[test]
fn header_incomplete_counts_from_start() {
    // Type byte, one-byte channel, then a stream id announcing 8 bytes with 2 present.
    let buf = [0x00, 0x05, 0xC0, 0x00];
    assert_eq!(
        FrameHeader::decode(&buf),
        Err(WireError::Incomplete { needed_min: 10, available: 4 })
    );
    assert_eq!(
        FrameHeader::decode(&[]),
        Err(WireError::Incomplete { needed_min: 4, available: 0 })
    );
}

#[test]
fn header_buffer_too_small() {
    let h = FrameHeader::data(2_000_000_000, 5);
    let mut buf = [0u8; 8];
    assert_eq!(
        h.encode(&mut buf),
        Err(WireError::BufferTooSmall { needed: 11, available: 8 })
    );
    assert_eq!(buf, [0u8; 8]);
}

#[test]
fn header_invalid_stream_rejected() {
    let h = FrameHeader::data(1, 5).with_stream(u64::MAX);
    let mut buf = [0u8; 32];
    assert_eq!(h.encode(&mut buf), Err(WireError::InvalidVarInt));
}

#[test]
fn header_reserved_bit_ignored() {
    // The reserved bit 4 does not change the decoded header.
    let (decoded, n) = FrameHeader::decode(&[0x80 | 0x10 | 0x04, 0, 0, 0]).unwrap();
    assert_eq!(n, 4);
    assert_eq!(decoded, FrameHeader::control(FrameType::Ping));
}

#[test]
fn wire_error_text() {
    assert_eq!(
        WireError::BufferTooSmall { needed: 8, available: 3 }.to_display_string(),
        "buffer too small: need 8 bytes, have 3"
    );
    assert_eq!(
        WireError::Incomplete { needed_min: 4, available: 0 }.to_display_string(),
        "incomplete input: need at least 4 bytes, have 0"
    );
    assert_eq!(WireError::InvalidVarInt.to_display_string(), "malformed VarInt encoding");
    assert_eq!(
        WireError::UnknownFrameType(0x0F).to_display_string(),
        "unknown frame type: 0x0f"
    );
    assert_eq!(
        WireError::PayloadTooLarge { declared: 20_000_000, max_allowed: 10_485_760 }
            .to_display_string(),
        "payload too large: 20000000 bytes (max 10485760)"
    );
}
