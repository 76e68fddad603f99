use po::node::discovery::{beacon_message, parse_beacon, peer_from_beacon, DISCOVERY_PORT};
use po::node::error::{PoError, PoFfiError};
use po::transport::TransportError;

#[test]
fn beacon_roundtrip() {
    let msg = beacon_message(b"0a1b2c", 4433);
    assert_eq!(msg, b"PO|0a1b2c|4433");
    assert_eq!(parse_beacon(&msg), Some((b"0a1b2c".to_vec(), 4433)));
}

#[test]
fn beacon_rejects_malformed() {
    assert_eq!(parse_beacon(b"PO|abc"), None);
    assert_eq!(parse_beacon(b"XX|abc|1"), None);
    assert_eq!(parse_beacon(b"PO|abc|1|2"), None);
    assert_eq!(parse_beacon(b"PO|abc|"), None);
    assert_eq!(parse_beacon(b"PO|abc|65536"), None);
    assert_eq!(parse_beacon(b"PO|abc|-1"), None);
    assert_eq!(parse_beacon(b"PO|abc|+"), None);
    assert_eq!(parse_beacon(b"PO|abc|12x"), None);
}

#[test]
fn beacon_port_forms() {
    assert_eq!(parse_beacon(b"PO|id|65535"), Some((b"id".to_vec(), 65535)));
    assert_eq!(parse_beacon(b"PO|id|+80"), Some((b"id".to_vec(), 80)));
    assert_eq!(parse_beacon(b"PO|id|0080"), Some((b"id".to_vec(), 80)));
    assert_eq!(parse_beacon(b"PO||0"), Some((Vec::new(), 0)));
    assert_eq!(DISCOVERY_PORT, 5433);
}

#[test]
fn node_error_texts() {
    assert_eq!(PoError::Config("bad".into()).to_display_string(), "config: bad");
    assert_eq!(PoError::Session("x".into()).to_display_string(), "session: x");
    assert_eq!(
        PoFfiError::Generic("boom".into()).to_display_string(),
        "Generic error: boom"
    );
    assert!(matches!(
        PoFfiError::from_po_error(PoError::Handshake("h".into())),
        PoFfiError::Handshake(m) if m == "h"
    ));
    assert_eq!(
        TransportError::Io("disk".into()).to_display_string(),
        "I/O error: disk"
    );
}

#[test]
fn own_beacon_ignored() {
    let msg = beacon_message(b"me", 1);
    assert_eq!(peer_from_beacon(&msg, b"me"), None);
    assert_eq!(peer_from_beacon(&msg, b"you"), Some((b"me".to_vec(), 1)));
    assert_eq!(peer_from_beacon(b"garbage", b"me"), None);
}
