use po::transport::{PendingChunk, TransportError};

#[test]
fn partial_reads() {
    let mut pending = PendingChunk::new();
    assert!(!pending.has_pending());
    let first = pending.deliver(b"hello world!".to_vec(), 5);
    assert_eq!(first.as_deref(), Some(&b"hello"[..]));
    assert!(pending.has_pending());
    assert_eq!(pending.take(5), b" worl");
    assert_eq!(pending.take(5), b"d!");
    assert!(!pending.has_pending());
}

#[test]
fn pending_chunk_whole_delivery() {
    let mut pending = PendingChunk::new();
    assert_eq!(
        pending.deliver(b"hello from A".to_vec(), 64).as_deref(),
        Some(&b"hello from A"[..])
    );
    assert!(!pending.has_pending());
    assert_eq!(pending.take(10), b"");
}

#[test]
fn empty_chunk_gives_no_read() {
    // An empty chunk is skipped; the next chunk is read in full.
    let mut pending = PendingChunk::new();
    assert!(pending.deliver(Vec::new(), 4).is_none());
    assert!(!pending.has_pending());
    assert_eq!(pending.deliver(b"x".to_vec(), 4).as_deref(), Some(&b"x"[..]));
    assert!(!pending.has_pending());
}

#[test]
fn transport_error_texts() {
    assert_eq!(
        TransportError::ConnectionClosed.to_display_string(),
        "connection closed by peer"
    );
    assert_eq!(TransportError::Quic("x".into()).to_display_string(), "TLS/QUIC error: x");
    assert_eq!(TransportError::NotConnected.to_display_string(), "transport not connected");
    assert_eq!(TransportError::Timeout.to_display_string(), "connection timed out");
}
