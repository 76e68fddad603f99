//! The structured payloads carried inside handshake and file-transfer frames.
//!
//! Their byte encoding (bincode) is done by the application crate; here they are
//! plain values, with views over which the handshake contracts are stated.

use vstd::prelude::*;

verus! {

/// Handshake initiation message, carried in a `HandshakeInit` frame.
#[derive(Debug)]
pub struct HandshakeInit {
    /// Protocol version (currently 1).
    pub version: u8,
    /// The initiator's Ed25519 public key.
    pub ed25519_pubkey: [u8; 32],
    /// Ephemeral X25519 public key for this session.
    pub x25519_ephemeral: [u8; 32],
    /// Timestamp (Unix milliseconds), against replays.
    pub timestamp: u64,
    /// Ed25519 signature over `version || x25519_ephemeral || timestamp (little-endian)`.
    pub signature: Vec<u8>,
}

/// The contents of a `HandshakeInit`.
pub struct HandshakeInitView {
    pub version: u8,
    pub ed25519_pubkey: Seq<u8>,
    pub x25519_ephemeral: Seq<u8>,
    pub timestamp: u64,
    pub signature: Seq<u8>,
}

impl View for HandshakeInit {
    type V = HandshakeInitView;

    open spec fn view(&self) -> HandshakeInitView {
        HandshakeInitView {
            version: self.version,
            ed25519_pubkey: self.ed25519_pubkey@,
            x25519_ephemeral: self.x25519_ephemeral@,
            timestamp: self.timestamp,
            signature: self.signature@,
        }
    }
}

/// Handshake reply message, carried in a `HandshakeReply` frame.
#[derive(Debug)]
pub struct HandshakeReply {
    /// The responder's Ed25519 public key.
    pub ed25519_pubkey: [u8; 32],
    /// Ephemeral X25519 public key for this session.
    pub x25519_ephemeral: [u8; 32],
    /// Ed25519 signature over `initiator_x25519_pub || responder_x25519_pub`.
    pub signature: Vec<u8>,
}

/// The contents of a `HandshakeReply`.
pub struct HandshakeReplyView {
    pub ed25519_pubkey: Seq<u8>,
    pub x25519_ephemeral: Seq<u8>,
    pub signature: Seq<u8>,
}

impl View for HandshakeReply {
    type V = HandshakeReplyView;

    open spec fn view(&self) -> HandshakeReplyView {
        HandshakeReplyView {
            ed25519_pubkey: self.ed25519_pubkey@,
            x25519_ephemeral: self.x25519_ephemeral@,
            signature: self.signature@,
        }
    }
}

/// Handshake confirmation, carried in a `HandshakeComplete` frame: the token
/// "PO_READY" encrypted with the new session key.
#[derive(Debug)]
pub struct HandshakeComplete {
    /// The encrypted confirmation token.
    pub confirmation: Vec<u8>,
}

/// File transfer metadata, carried in a `FileHeader` frame.
#[derive(Debug)]
pub struct FileHeader {
    /// Name of the file.
    pub name: String,
    /// Total file size in bytes.
    pub size: u64,
    /// SHA-256 digest of the complete file.
    pub sha256: [u8; 32],
    /// Chunk size used for `FileChunk` frames.
    pub chunk_size: u32,
}

/// Any structured protocol message.
#[derive(Debug)]
pub enum ProtocolMessage {
    HandshakeInit(HandshakeInit),
    HandshakeReply(HandshakeReply),
    HandshakeComplete(HandshakeComplete),
    FileHeader(FileHeader),
    Data(Vec<u8>),
}

} // verus!
