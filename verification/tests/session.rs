use po::crypto::identity::Identity;
use po::session::framer::{Framer, FramerError, ReadProgress, DEFAULT_MAX_FRAME_SIZE};
use po::session::handshake::{
    build_session_context, check_frame_type, check_init, HandshakeError, InitiatorHandshake,
    ResponderHandshake,
};
use po::session::message::{HandshakeComplete, HandshakeInit};
use po::session::state::{RecvAction, Session, SessionError, SessionState};
use po::wire::error::WireError;
use po::wire::frame_type::FrameType;
use po::wire::header::FrameHeader;

fn take_frame(framer: &mut Framer) -> (FrameHeader, Vec<u8>) {
    match framer.poll_frame().unwrap() {
        ReadProgress::Frame(h, p) => (h, p),
        other => panic!("expected a frame, got {other:?}"),
    }
}

// ---- framer ----

#[test]
fn write_and_read_data_frame() {
    let writer = Framer::new();
    let mut reader = Framer::new();
    let payload = b"Hello Protocol Orzatty!";
    let header = FrameHeader::data(0, payload.len() as u64);
    let bytes = writer.encode_frame(&header, payload).unwrap();
    reader.push_bytes(&bytes);
    let (h, p) = take_frame(&mut reader);
    assert_eq!(h.frame_type, FrameType::Data);
    assert_eq!(p, payload);
    assert_eq!(reader.buffered(), 0);
}

#[test]
fn framer_partial_delivery() {
    let writer = Framer::new();
    let mut reader = Framer::new();
    let payload = vec![7u8; 300];
    let header = FrameHeader::data(3, 300);
    let bytes = writer.encode_frame(&header, &payload).unwrap();
    // Nothing buffered: a header is needed.
    assert!(matches!(reader.poll_frame().unwrap(), ReadProgress::NeedHeader));
    // Two bytes: the header is still incomplete.
    reader.push_bytes(&bytes[..2]);
    assert!(matches!(reader.poll_frame().unwrap(), ReadProgress::NeedHeader));
    // The whole header and part of the payload: the rest of the payload is missing.
    reader.push_bytes(&bytes[2..100]);
    let header_len = header.encoded_len();
    match reader.poll_frame().unwrap() {
        ReadProgress::NeedPayload(n) => assert_eq!(n, header_len + 300 - 100),
        other => panic!("unexpected {other:?}"),
    }
    reader.push_bytes(&bytes[100..]);
    let (h, p) = take_frame(&mut reader);
    assert_eq!(h, header);
    assert_eq!(p, payload);
}

#[test]
fn multiple_frames_sequential() {
    let writer = Framer::new();
    let mut reader = Framer::new();
    let mut stream = Vec::new();
    for i in 0u8..10 {
        let payload = vec![i; (i as usize + 1) * 10];
        let header = FrameHeader::data(i as u32, payload.len() as u64);
        stream.extend(writer.encode_frame(&header, &payload).unwrap());
    }
    reader.push_bytes(&stream);
    for i in 0u8..10 {
        let (h, p) = take_frame(&mut reader);
        assert_eq!(h.channel_id, i as u32);
        assert_eq!(p.len(), (i as usize + 1) * 10);
        assert!(p.iter().all(|&b| b == i));
    }
    assert!(matches!(reader.poll_frame().unwrap(), ReadProgress::NeedHeader));
}

#[test]
fn write_and_read_control_frame() {
    let writer = Framer::new();
    let mut reader = Framer::new();
    let header = FrameHeader::control(FrameType::Ping);
    reader.push_bytes(&writer.encode_frame(&header, &[]).unwrap());
    let (h, p) = take_frame(&mut reader);
    assert_eq!(h.frame_type, FrameType::Ping);
    assert!(h.flags.control);
    assert!(p.is_empty());
}

#[test]
fn framer_payload_too_large() {
    let writer = Framer::new();
    let mut reader = Framer::new().with_max_frame_size(16);
    let header = FrameHeader::data(1, 17);
    reader.push_bytes(&writer.encode_frame(&header, &[0u8; 17]).unwrap());
    match reader.poll_frame() {
        Err(FramerError::Wire(WireError::PayloadTooLarge { declared: 17, max_allowed: 16 })) => {}
        other => panic!("unexpected {other:?}"),
    }
    let f = Framer::default();
    assert_eq!(f.buffered(), 0);
    assert_eq!(DEFAULT_MAX_FRAME_SIZE, 10 * 1024 * 1024);
}

#[test]
fn framer_unknown_type_is_an_error() {
    let mut reader = Framer::new();
    reader.push_bytes(&[0x0F, 0, 0, 0]);
    assert!(matches!(
        reader.poll_frame(),
        Err(FramerError::Wire(WireError::UnknownFrameType(0x0F)))
    ));
}

#[test]
fn eof_returns_none() {
    // The transport closed with nothing buffered: reading gives no frame.
    let reader = Framer::new();
    assert!(reader.end_of_stream(&ReadProgress::NeedHeader).is_none());
}

#[test]
fn framer_large_payload() {
    let writer = Framer::new();
    let mut reader = Framer::new();
    let payload = vec![0xAB; 100_000];
    let header = FrameHeader::data(1, payload.len() as u64);
    let bytes = writer.encode_frame(&header, &payload).unwrap();
    for chunk in bytes.chunks(256) {
        reader.push_bytes(chunk);
    }
    let (h, p) = take_frame(&mut reader);
    assert_eq!(h.payload_len, 100_000);
    assert_eq!(p.as_slice(), payload.as_slice());
}

#[test]
fn framer_end_of_stream() {
    let mut reader = Framer::new();
    assert!(reader.end_of_stream(&ReadProgress::NeedHeader).is_none());
    reader.push_bytes(&[0x00, 0x00]);
    match reader.end_of_stream(&ReadProgress::NeedHeader) {
        Some(FramerError::Wire(WireError::Incomplete { needed_min: 4, available: 2 })) => {}
        other => panic!("unexpected {other:?}"),
    }
    match reader.end_of_stream(&ReadProgress::NeedPayload(5)) {
        Some(FramerError::Wire(WireError::Incomplete { needed_min: 7, available: 2 })) => {}
        other => panic!("unexpected {other:?}"),
    }
}

#[test]
fn framer_end_inside_payload_is_an_error() {
    // A header declaring 5 payload bytes, then only 2 of them, then the end.
    let mut reader = Framer::new();
    reader.push_bytes(&[0x00, 0x00, 0x00, 0x05, 0x01, 0x02]);
    let pending = reader.poll_frame().unwrap();
    assert!(matches!(pending, ReadProgress::NeedPayload(3)));
    match reader.end_of_stream(&pending) {
        Some(FramerError::Wire(WireError::Incomplete { needed_min: 9, available: 6 })) => {}
        other => panic!("unexpected {other:?}"),
    }
}

#[test]
fn framer_invalid_header_not_encoded() {
    let writer = Framer::new();
    let header = FrameHeader::data(0, u64::MAX);
    assert!(matches!(
        writer.encode_frame(&header, &[]),
        Err(FramerError::Wire(WireError::InvalidVarInt))
    ));
}

#[test]
fn framer_error_text() {
    assert_eq!(
        FramerError::Wire(WireError::InvalidVarInt).to_display_string(),
        "wire: malformed VarInt encoding"
    );
    assert_eq!(
        FramerError::Transport(po::transport::TransportError::ConnectionClosed)
            .to_display_string(),
        "transport: connection closed by peer"
    );
}

// ---- handshake ----

struct Established {
    initiator: Session,
    responder: Session,
}

fn handshake_pair() -> Established {
    let alice = Identity::generate();
    let bob = Identity::generate();
    let alice_pub = alice.public_key_bytes();
    let bob_pub = bob.public_key_bytes();
    let mut initiator = Session::new(alice);
    let mut responder = Session::new(bob);
    initiator.begin_handshake();
    responder.begin_handshake();
    assert_eq!(initiator.state(), SessionState::Handshaking);

    let (istate, init) = InitiatorHandshake::start(initiator.identity(), 1_000_000);
    assert_eq!(init.version, 1);
    assert_eq!(init.ed25519_pubkey, alice_pub);
    assert_eq!(init.signature.len(), 64);

    let (rstate, reply) = ResponderHandshake::accept(responder.identity(), &init, 1_010_000).unwrap();
    assert_eq!(reply.ed25519_pubkey, bob_pub);

    let (iresult, complete) = istate.finish(&reply).unwrap();
    assert_eq!(iresult.peer_pubkey, bob_pub);
    assert_eq!(complete.confirmation.len(), 8 + 28);

    let rresult = rstate.finish(&complete).unwrap();
    assert_eq!(rresult.peer_pubkey, alice_pub);

    initiator.complete_handshake(iresult);
    responder.complete_handshake(rresult);
    Established { initiator, responder }
}

#[test]
fn handshake_establishes_both_sides() {
    let Established { initiator, responder } = handshake_pair();
    assert_eq!(initiator.state(), SessionState::Established);
    assert_eq!(responder.state(), SessionState::Established);
    assert_eq!(initiator.peer_node_id(), Some(responder.node_id()));
    assert_eq!(responder.peer_node_id(), Some(initiator.node_id()));
}

#[test]
fn session_send_and_receive() {
    let Established { mut initiator, mut responder } = handshake_pair();
    let (header, payload) = initiator.prepare_send(1, b"secret hello").unwrap();
    assert!(header.flags.encrypted);
    assert_eq!(header.channel_id, 1);
    assert_eq!(header.payload_len as usize, payload.len());
    // Over the wire through the framer.
    let bytes = initiator.encode_frame(&header, &payload).unwrap();
    responder.push_bytes(&bytes);
    let (h, p) = match responder.poll_frame().unwrap() {
        ReadProgress::Frame(h, p) => (h, p),
        other => panic!("unexpected {other:?}"),
    };
    match responder.on_frame(&h, p).unwrap() {
        RecvAction::Deliver(ch, data) => {
            assert_eq!(ch, 1);
            assert_eq!(data, b"secret hello");
        }
        other => panic!("unexpected {other:?}"),
    }
    // And back the other way.
    let (h2, p2) = responder.prepare_send(7, b"pong!").unwrap();
    // The responder seals with its own direction byte, so its first nonce differs
    // from the initiator's first nonce (used by the confirmation).
    assert_eq!(&p2[..12], &[1u8, 0, 0, 0, 0, 0, 0, 0, 0, 0, 0, 0]);
    assert_eq!(&payload[..12], &[0u8, 0, 0, 0, 1, 0, 0, 0, 0, 0, 0, 0]);
    match initiator.on_frame(&h2, p2).unwrap() {
        RecvAction::Deliver(ch, data) => {
            assert_eq!(ch, 7);
            assert_eq!(data, b"pong!");
        }
        other => panic!("unexpected {other:?}"),
    }
}

#[test]
fn session_channel_is_authenticated() {
    let Established { mut initiator, mut responder } = handshake_pair();
    let (header, payload) = initiator.prepare_send(1, b"data").unwrap();
    let moved = FrameHeader { channel_id: 2, ..header };
    assert!(matches!(responder.on_frame(&moved, payload), Err(SessionError::Crypto(_))));
}

#[test]
fn session_control_frames() {
    let Established { mut initiator, .. } = handshake_pair();
    assert!(matches!(
        initiator.on_frame(&FrameHeader::control(FrameType::Ping), Vec::new()).unwrap(),
        RecvAction::ReplyPong
    ));
    assert!(matches!(
        initiator.on_frame(&FrameHeader::control(FrameType::Pong), Vec::new()).unwrap(),
        RecvAction::Skip
    ));
    assert!(matches!(
        initiator.on_frame(&FrameHeader::control(FrameType::Ack), Vec::new()).unwrap(),
        RecvAction::Skip
    ));
    // There is no plaintext mode: an unencrypted data frame is refused.
    assert!(matches!(
        initiator.on_frame(&FrameHeader::data(4, 3), vec![1, 2, 3]),
        Err(SessionError::Unencrypted)
    ));
    assert!(matches!(
        initiator.on_frame(&FrameHeader::control(FrameType::Close), Vec::new()).unwrap(),
        RecvAction::Closed
    ));
    assert_eq!(initiator.state(), SessionState::Closed);
    assert!(!initiator.can_receive());
}

#[test]
fn session_not_established() {
    let mut s = Session::new(Identity::generate());
    assert_eq!(s.state(), SessionState::New);
    assert!(matches!(s.prepare_send(1, b"x"), Err(SessionError::NotEstablished)));
    let encrypted = FrameHeader::data(1, 40).with_encrypted();
    assert!(matches!(s.on_frame(&encrypted, vec![0; 40]), Err(SessionError::NoCipher)));
    // Before any handshake, an unencrypted data frame is refused too.
    assert!(matches!(
        s.on_frame(&FrameHeader::data(5, 2), vec![0xAA, 0xBB]),
        Err(SessionError::Unencrypted)
    ));
    assert!(s.peer_node_id().is_none());
}

#[test]
fn session_close() {
    let mut s = Session::new(Identity::generate());
    assert!(s.begin_close());
    assert_eq!(s.state(), SessionState::Closing);
    s.finish_close();
    assert_eq!(s.state(), SessionState::Closed);
    assert!(!s.begin_close());
    assert_eq!(s.state(), SessionState::Closed);
    let mut t = Session::new(Identity::generate());
    t.mark_closed();
    assert_eq!(t.state(), SessionState::Closed);
}

#[test]
fn handshake_rejects_stale_timestamp() {
    let alice = Identity::generate();
    let bob = Identity::generate();
    let (_st, init) = InitiatorHandshake::start(&alice, 1_000_000);
    assert!(matches!(
        ResponderHandshake::accept(&bob, &init, 1_030_001),
        Err(HandshakeError::TimestampExpired)
    ));
    assert!(ResponderHandshake::accept(&bob, &init, 970_000).is_ok());
    assert!(check_init(&init, 1_030_000).is_ok());
}

#[test]
fn handshake_rejects_bad_version_and_signature() {
    let alice = Identity::generate();
    let bob = Identity::generate();
    let (_st, init) = InitiatorHandshake::start(&alice, 5);
    let bad_version = HandshakeInit { version: 2, signature: init.signature.clone(), ..init };
    assert!(matches!(
        check_init(&bad_version, 5),
        Err(HandshakeError::UnsupportedVersion(2))
    ));
    let (_st, init) = InitiatorHandshake::start(&alice, 5);
    let short_sig = HandshakeInit { signature: vec![0u8; 63], ..init };
    assert!(matches!(check_init(&short_sig, 5), Err(HandshakeError::InvalidSignature)));
    let (_st, init) = InitiatorHandshake::start(&alice, 5);
    let other_key = HandshakeInit { ed25519_pubkey: bob.public_key_bytes(), ..init };
    assert!(matches!(check_init(&other_key, 5), Err(HandshakeError::InvalidSignature)));
}

#[test]
fn handshake_rejects_forged_reply() {
    let alice = Identity::generate();
    let bob = Identity::generate();
    let mallory = Identity::generate();
    let (istate, init) = InitiatorHandshake::start(&alice, 1);
    let (_r, mut reply) = ResponderHandshake::accept(&bob, &init, 1).unwrap();
    reply.ed25519_pubkey = mallory.public_key_bytes();
    assert!(matches!(istate.finish(&reply), Err(HandshakeError::InvalidSignature)));
}

#[test]
fn handshake_rejects_bad_confirmation() {
    let alice = Identity::generate();
    let bob = Identity::generate();
    let (_istate, init) = InitiatorHandshake::start(&alice, 1);
    let (rstate, _reply) = ResponderHandshake::accept(&bob, &init, 1).unwrap();
    let forged = HandshakeComplete { confirmation: vec![0u8; 36] };
    assert!(matches!(rstate.finish(&forged), Err(HandshakeError::ConfirmationFailed)));
}

#[test]
fn handshake_frame_type_check() {
    assert!(check_frame_type(FrameType::HandshakeReply, FrameType::HandshakeReply).is_ok());
    assert!(matches!(
        check_frame_type(FrameType::Data, FrameType::HandshakeReply),
        Err(HandshakeError::UnexpectedFrame(FrameType::Data))
    ));
    assert_eq!(
        HandshakeError::UnexpectedFrame(FrameType::Data).to_display_string(),
        "unexpected frame type: DATA"
    );
    assert_eq!(
        HandshakeError::UnsupportedVersion(7).to_display_string(),
        "unsupported protocol version: 7"
    );
}

#[test]
fn session_context_layout() {
    let ctx = build_session_context(&[1u8; 32], &[2u8; 32]);
    assert_eq!(&ctx[..6], b"po-v1-");
    assert_eq!(&ctx[6..38], &[1u8; 32]);
    assert_eq!(&ctx[38..], &[2u8; 32]);
}

#[test]
fn session_error_text() {
    assert_eq!(
        SessionError::NotEstablished.to_display_string(),
        "session not established (handshake not complete)"
    );
    assert_eq!(SessionError::Crypto("x".into()).to_display_string(), "crypto error: x");
    assert_eq!(
        SessionError::Unencrypted.to_display_string(),
        "unencrypted data frame refused"
    );
}
