//! The session state machine.
//!
//! A session goes `New -> Handshaking -> Established -> Closing -> Closed`. The
//! decisions of sending, receiving and closing are made here; the caller performs
//! the frame I/O that each decision asks for.

use vstd::prelude::*;
use crate::crypto::aead::{SessionCipher, spec_nonce, spec_too_short_text, spec_tampered_text,
    spec_seal_failed_text, ENCRYPTION_OVERHEAD};
use crate::crypto::identity::{Identity, NodeId};
use crate::crypto::primitives::{spec_chacha20poly1305_seal, spec_chacha20poly1305_open,
    spec_chacha_block_limit, spec_sha256, spec_ed25519_public};
use crate::session::framer::{Framer, FramerError, ReadProgress, PollOutcome, spec_poll,
    spec_end_of_stream};
use crate::session::handshake::HandshakeResult;
use crate::text::push_str;
use crate::wire::error::WireError;
use crate::wire::frame_type::FrameType;
use crate::wire::header::{FrameHeader, FrameFlags, spec_header_bytes, spec_header_encodable};

verus! {

/// The lifecycle state of a connection.
#[derive(Debug, Clone, Copy, PartialEq, Eq, Structural)]
pub enum SessionState {
    /// Transport connected, no handshake yet.
    New,
    /// Handshake in progress.
    Handshaking,
    /// Handshake complete, encrypted session active.
    Established,
    /// Graceful close initiated.
    Closing,
    /// Connection fully closed.
    Closed,
}

/// Session-level errors.
#[derive(Debug)]
pub enum SessionError {
    NotEstablished,
    NoCipher,
    /// A data frame arrived without encryption; every data frame must be encrypted.
    Unencrypted,
    Wire(String),
    Crypto(String),
    Framer(String),
}

/// The human-readable text of a session error.
pub open spec fn spec_session_error_text(e: SessionError) -> Seq<char> {
    match e {
        SessionError::NotEstablished => "session not established (handshake not complete)"@,
        SessionError::NoCipher => "no session cipher available"@,
        SessionError::Unencrypted => "unencrypted data frame refused"@,
        SessionError::Wire(m) => "wire error: "@ + m@,
        SessionError::Crypto(m) => "crypto error: "@ + m@,
        SessionError::Framer(m) => "framer error: "@ + m@,
    }
}

impl SessionError {
    /// The human-readable text of this error.
    pub fn to_display_string(&self) -> (s: String)
        ensures
            s@ == spec_session_error_text(*self),
    {
        let mut s = String::new();
        match self {
            SessionError::NotEstablished => push_str(
                &mut s,
                "session not established (handshake not complete)",
            ),
            SessionError::NoCipher => push_str(&mut s, "no session cipher available"),
            SessionError::Unencrypted => push_str(&mut s, "unencrypted data frame refused"),
            SessionError::Wire(m) => {
                push_str(&mut s, "wire error: ");
                push_str(&mut s, m.as_str());
            },
            SessionError::Crypto(m) => {
                push_str(&mut s, "crypto error: ");
                push_str(&mut s, m.as_str());
            },
            SessionError::Framer(m) => {
                push_str(&mut s, "framer error: ");
                push_str(&mut s, m.as_str());
            },
        }
        s
    }
}

/// The header whose encoding is the associated data of a data frame on `channel`:
/// an encrypted data header with payload length zero.
pub open spec fn spec_data_aad_header(channel: u32) -> FrameHeader {
    FrameHeader {
        frame_type: FrameType::Data,
        flags: FrameFlags { control: false, priority: false, encrypted: true },
        channel_id: channel,
        stream_id: 0,
        payload_len: 0,
    }
}

/// The associated data that binds a data payload to its channel.
pub open spec fn spec_data_aad(channel: u32) -> Seq<u8> {
    spec_header_bytes(spec_data_aad_header(channel))
}

/// What the receiver should do after a frame has been handled.
#[derive(Debug)]
pub enum RecvAction {
    /// Answer a ping with a pong control frame, then keep reading.
    ReplyPong,
    /// Nothing for the caller; keep reading.
    Skip,
    /// The peer closed the session: no more data.
    Closed,
    /// Application data arrived on a channel.
    Deliver(u32, Vec<u8>),
}

/// A session over some transport: the handshake, encryption and frame handling.
pub struct Session {
    state: SessionState,
    framer: Framer,
    cipher: Option<SessionCipher>,
    identity: Identity,
    peer_node_id: Option<NodeId>,
    peer_pubkey: Option<[u8; 32]>,
}

impl Session {
    /// The current state.
    pub closed spec fn spec_state(&self) -> SessionState {
        self.state
    }

    /// Whether a session cipher is installed.
    pub closed spec fn has_cipher(&self) -> bool {
        self.cipher is Some
    }

    /// The session key (meaningful when a cipher is installed).
    pub closed spec fn cipher_key(&self) -> Seq<u8> {
        self.cipher->Some_0.key()
    }

    /// The direction byte of the nonces the cipher seals with (meaningful when a
    /// cipher is installed).
    pub closed spec fn cipher_direction(&self) -> u8 {
        self.cipher->Some_0.direction()
    }

    /// The cipher's nonce counter (meaningful when a cipher is installed).
    pub closed spec fn cipher_counter(&self) -> u64 {
        self.cipher->Some_0.counter()
    }

    /// The secret key of the session's own identity.
    pub closed spec fn identity_secret(&self) -> Seq<u8> {
        self.identity.secret()
    }

    /// The peer's public key, once the handshake is complete.
    pub closed spec fn spec_peer_pubkey(&self) -> Option<Seq<u8>> {
        match self.peer_pubkey {
            Some(k) => Some(k@),
            None => None,
        }
    }

    /// The peer's node id, once the handshake is complete.
    pub closed spec fn spec_peer_node_id(&self) -> Option<Seq<u8>> {
        match self.peer_node_id {
            Some(id) => Some(id.bytes()),
            None => None,
        }
    }

    /// The bytes buffered by the session's framer.
    pub closed spec fn buffered_bytes(&self) -> Seq<u8> {
        self.framer.buffered_bytes()
    }

    /// The largest incoming payload the framer accepts.
    pub closed spec fn max_frame_size(&self) -> u64 {
        self.framer.max_frame_size()
    }

    /// A new session for `identity`, in state `New`, with no cipher and no peer.
    pub fn new(identity: Identity) -> (s: Self)
        ensures
            s.spec_state() == SessionState::New,
            !s.has_cipher(),
            s.spec_peer_pubkey() is None,
            s.spec_peer_node_id() is None,
            s.identity_secret() == identity.secret(),
            s.buffered_bytes() == Seq::<u8>::empty(),
            s.max_frame_size() == crate::session::framer::DEFAULT_MAX_FRAME_SIZE,
    {
        Self {
            state: SessionState::New,
            framer: Framer::new(),
            cipher: None,
            identity,
            peer_node_id: None,
            peer_pubkey: None,
        }
    }

    /// The current state.
    pub fn state(&self) -> (s: SessionState)
        ensures
            s == self.spec_state(),
    {
        self.state
    }

    /// The session's own identity.
    pub fn identity(&self) -> (id: &Identity)
        ensures
            id.secret() == self.identity_secret(),
    {
        &self.identity
    }

    /// Our own node id.
    pub fn node_id(&self) -> (id: &NodeId)
        ensures
            id.bytes() == spec_sha256(spec_ed25519_public(self.identity_secret())),
    {
        self.identity.node_id()
    }

    /// The peer's node id (available after the handshake).
    pub fn peer_node_id(&self) -> (id: Option<&NodeId>)
        ensures
            match self.spec_peer_node_id() {
                Some(b) => id is Some && id->Some_0.bytes() == b,
                None => id is None,
            },
    {
        match &self.peer_node_id {
            Some(id) => Some(id),
            None => None,
        }
    }

    /// Mark the start of the handshake.
    pub fn begin_handshake(&mut self)
        ensures
            final(self).spec_state() == SessionState::Handshaking,
            final(self).has_cipher() == old(self).has_cipher(),
            final(self).cipher_key() == old(self).cipher_key(),
            final(self).cipher_direction() == old(self).cipher_direction(),
            final(self).cipher_counter() == old(self).cipher_counter(),
            final(self).identity_secret() == old(self).identity_secret(),
            final(self).spec_peer_pubkey() == old(self).spec_peer_pubkey(),
            final(self).spec_peer_node_id() == old(self).spec_peer_node_id(),
            final(self).buffered_bytes() == old(self).buffered_bytes(),
            final(self).max_frame_size() == old(self).max_frame_size(),
    {
        self.state = SessionState::Handshaking;
    }

    /// Install the result of a successful handshake: the session is established.
    pub fn complete_handshake(&mut self, result: HandshakeResult)
        ensures
            final(self).spec_state() == SessionState::Established,
            final(self).has_cipher(),
            final(self).cipher_key() == result.cipher.key(),
            final(self).cipher_direction() == result.cipher.direction(),
            final(self).cipher_counter() == result.cipher.counter(),
            final(self).identity_secret() == old(self).identity_secret(),
            final(self).spec_peer_pubkey() == Some(result.peer_pubkey@),
            final(self).spec_peer_node_id() == Some(result.peer_node_id.bytes()),
            final(self).buffered_bytes() == old(self).buffered_bytes(),
            final(self).max_frame_size() == old(self).max_frame_size(),
    {
        self.cipher = Some(result.cipher);
        self.peer_pubkey = Some(result.peer_pubkey);
        self.peer_node_id = Some(result.peer_node_id);
        self.state = SessionState::Established;
    }

    /// Encrypt `data` for `channel`: the header and payload of the data frame to
    /// write. The header's encoding (with payload length zero) is the associated
    /// data, so the payload cannot be moved to another channel.
    pub fn prepare_send(&mut self, channel: u32, data: &[u8]) -> (r: Result<
        (FrameHeader, Vec<u8>),
        SessionError,
    >)
        requires
            data@.len() + ENCRYPTION_OVERHEAD <= usize::MAX,
            old(self).has_cipher() ==> old(self).cipher_counter() < u64::MAX,
        ensures
            final(self).spec_state() == old(self).spec_state(),
            final(self).has_cipher() == old(self).has_cipher(),
            final(self).cipher_key() == old(self).cipher_key(),
            final(self).cipher_direction() == old(self).cipher_direction(),
            final(self).identity_secret() == old(self).identity_secret(),
            final(self).spec_peer_pubkey() == old(self).spec_peer_pubkey(),
            final(self).spec_peer_node_id() == old(self).spec_peer_node_id(),
            final(self).buffered_bytes() == old(self).buffered_bytes(),
            final(self).max_frame_size() == old(self).max_frame_size(),
            old(self).spec_state() != SessionState::Established ==> r is Err && r->Err_0
                == SessionError::NotEstablished && final(self).cipher_counter()
                == old(self).cipher_counter(),
            old(self).spec_state() == SessionState::Established && !old(self).has_cipher() ==> r is Err
                && r->Err_0 == SessionError::NoCipher,
            old(self).spec_state() == SessionState::Established && old(self).has_cipher() ==> {
                &&& final(self).cipher_counter() == old(self).cipher_counter() + 1
                &&& data@.len() / 64 < spec_chacha_block_limit() ==> r is Ok && {
                    let (h, p) = r->Ok_0;
                    &&& p@ == spec_nonce(old(self).cipher_direction(), old(self).cipher_counter())
                        + spec_chacha20poly1305_seal(
                        old(self).cipher_key(),
                        spec_nonce(old(self).cipher_direction(), old(self).cipher_counter()),
                        spec_data_aad(channel),
                        data@,
                    )
                    &&& p@.len() == data@.len() + ENCRYPTION_OVERHEAD
                    &&& h == FrameHeader { payload_len: p@.len() as u64, ..spec_data_aad_header(channel) }
                }
                &&& data@.len() / 64 >= spec_chacha_block_limit() ==> r is Err && r->Err_0
                    is Crypto && r->Err_0->Crypto_0@ == "encryption failed: "@
                    + spec_seal_failed_text()
            },
    {
        if self.state != SessionState::Established {
            return Err(SessionError::NotEstablished);
        }
        let cipher = match &mut self.cipher {
            Some(c) => c,
            None => {
                return Err(SessionError::NoCipher);
            },
        };
        let header = FrameHeader::data(channel, 0).with_encrypted();
        let aad = match encode_aad(&header) {
            Ok(a) => a,
            Err(e) => {
                return Err(SessionError::Wire(e));
            },
        };
        let encrypted = match cipher.encrypt(data, aad.as_slice()) {
            Ok(v) => v,
            Err(e) => {
                return Err(SessionError::Crypto(e.to_display_string()));
            },
        };
        let final_header = FrameHeader { payload_len: encrypted.len() as u64, ..header };
        Ok((final_header, encrypted))
    }

    /// Handle a frame read from the transport.
    ///
    /// Pings ask for a pong, pongs and frames of other types are skipped, a close
    /// frame closes the session, and data frames are decrypted and delivered. There
    /// is no plaintext mode: a data frame not marked encrypted is refused. A payload encrypted by the peer's `prepare_send` under
    /// the same session key, for the same channel, is delivered as it was sent.
    pub fn on_frame(&mut self, header: &FrameHeader, payload: Vec<u8>) -> (r: Result<
        RecvAction,
        SessionError,
    >)
        ensures
            final(self).has_cipher() == old(self).has_cipher(),
            final(self).cipher_key() == old(self).cipher_key(),
            final(self).cipher_direction() == old(self).cipher_direction(),
            final(self).cipher_counter() == old(self).cipher_counter(),
            final(self).identity_secret() == old(self).identity_secret(),
            final(self).spec_peer_pubkey() == old(self).spec_peer_pubkey(),
            final(self).spec_peer_node_id() == old(self).spec_peer_node_id(),
            final(self).buffered_bytes() == old(self).buffered_bytes(),
            final(self).max_frame_size() == old(self).max_frame_size(),
            header.frame_type == FrameType::Close ==> (r matches Ok(RecvAction::Closed)
                && final(self).spec_state() == SessionState::Closed),
            header.frame_type != FrameType::Close ==> final(self).spec_state() == old(
                self,
            ).spec_state(),
            header.frame_type == FrameType::Ping ==> r matches Ok(RecvAction::ReplyPong),
            header.frame_type != FrameType::Ping && header.frame_type != FrameType::Close
                && header.frame_type != FrameType::Data ==> r matches Ok(RecvAction::Skip),
            header.frame_type == FrameType::Data && !header.flags.encrypted ==> r is Err
                && r->Err_0 == SessionError::Unencrypted,
            header.frame_type == FrameType::Data && header.flags.encrypted && !old(self).has_cipher()
                ==> r is Err && r->Err_0 == SessionError::NoCipher,
            header.frame_type == FrameType::Data && header.flags.encrypted && old(self).has_cipher()
                ==> {
                let aad = spec_data_aad(header.channel_id);
                &&& payload@.len() < ENCRYPTION_OVERHEAD ==> r is Err && r->Err_0 is Crypto
                    && r->Err_0->Crypto_0@ == "decryption failed: "@ + spec_too_short_text(
                    payload@.len(),
                )
                &&& payload@.len() >= ENCRYPTION_OVERHEAD ==> match spec_chacha20poly1305_open(
                    old(self).cipher_key(),
                    payload@.take(12),
                    aad,
                    payload@.skip(12),
                ) {
                    Some(p) => r matches Ok(RecvAction::Deliver(c, d)) && c == header.channel_id
                        && d@ == p,
                    None => r is Err && r->Err_0 is Crypto && r->Err_0->Crypto_0@
                        == "decryption failed: "@ + spec_tampered_text(),
                }
                &&& forall|p: Seq<u8>, d: u8, n: u64|
                    #![trigger spec_chacha20poly1305_seal(old(self).cipher_key(), spec_nonce(d, n), aad, p)]
                    p.len() / 64 < spec_chacha_block_limit() && payload@.len() == p.len()
                        + ENCRYPTION_OVERHEAD && payload@ == spec_nonce(d, n)
                        + spec_chacha20poly1305_seal(old(self).cipher_key(), spec_nonce(d, n), aad, p)
                        ==> (r matches Ok(RecvAction::Deliver(c, d)) && c == header.channel_id
                        && d@ == p)
            },
    {
        match header.frame_type {
            FrameType::Ping => Ok(RecvAction::ReplyPong),
            FrameType::Pong => Ok(RecvAction::Skip),
            FrameType::Close => {
                self.state = SessionState::Closed;
                Ok(RecvAction::Closed)
            },
            FrameType::Data => {
                if header.flags.encrypted {
                    let cipher = match &self.cipher {
                        Some(c) => c,
                        None => {
                            return Err(SessionError::NoCipher);
                        },
                    };
                    let aad_header = FrameHeader::data(header.channel_id, 0).with_encrypted();
                    let aad = match encode_aad(&aad_header) {
                        Ok(a) => a,
                        Err(e) => {
                            return Err(SessionError::Wire(e));
                        },
                    };
                    match cipher.decrypt(payload.as_slice(), aad.as_slice()) {
                        Ok(decrypted) => Ok(RecvAction::Deliver(header.channel_id, decrypted)),
                        Err(e) => Err(SessionError::Crypto(e.to_display_string())),
                    }
                } else {
                    Err(SessionError::Unencrypted)
                }
            },
            _ => Ok(RecvAction::Skip),
        }
    }

    /// Whether receiving may read from the transport: not once the session is
    /// closed, when there is nothing more to receive.
    pub fn can_receive(&self) -> (b: bool)
        ensures
            b == (self.spec_state() != SessionState::Closed),
    {
        self.state != SessionState::Closed
    }

    /// The transport reached its end while reading: the session is closed.
    pub fn mark_closed(&mut self)
        ensures
            final(self).spec_state() == SessionState::Closed,
            final(self).has_cipher() == old(self).has_cipher(),
            final(self).cipher_key() == old(self).cipher_key(),
            final(self).cipher_direction() == old(self).cipher_direction(),
            final(self).cipher_counter() == old(self).cipher_counter(),
            final(self).identity_secret() == old(self).identity_secret(),
            final(self).spec_peer_pubkey() == old(self).spec_peer_pubkey(),
            final(self).spec_peer_node_id() == old(self).spec_peer_node_id(),
            final(self).buffered_bytes() == old(self).buffered_bytes(),
            final(self).max_frame_size() == old(self).max_frame_size(),
    {
        self.state = SessionState::Closed;
    }

    /// Start a graceful close: returns whether a close frame must be sent (not when
    /// the session is already closed), and moves an open session to `Closing`.
    pub fn begin_close(&mut self) -> (send: bool)
        ensures
            send == (old(self).spec_state() != SessionState::Closed),
            send ==> final(self).spec_state() == SessionState::Closing,
            !send ==> final(self).spec_state() == SessionState::Closed,
            final(self).has_cipher() == old(self).has_cipher(),
            final(self).cipher_key() == old(self).cipher_key(),
            final(self).cipher_direction() == old(self).cipher_direction(),
            final(self).cipher_counter() == old(self).cipher_counter(),
            final(self).identity_secret() == old(self).identity_secret(),
            final(self).spec_peer_pubkey() == old(self).spec_peer_pubkey(),
            final(self).spec_peer_node_id() == old(self).spec_peer_node_id(),
            final(self).buffered_bytes() == old(self).buffered_bytes(),
            final(self).max_frame_size() == old(self).max_frame_size(),
    {
        if self.state == SessionState::Closed {
            return false;
        }
        self.state = SessionState::Closing;
        true
    }

    /// The close frame was sent: the session is closed.
    pub fn finish_close(&mut self)
        ensures
            final(self).spec_state() == SessionState::Closed,
            final(self).has_cipher() == old(self).has_cipher(),
            final(self).cipher_key() == old(self).cipher_key(),
            final(self).cipher_direction() == old(self).cipher_direction(),
            final(self).cipher_counter() == old(self).cipher_counter(),
            final(self).identity_secret() == old(self).identity_secret(),
            final(self).spec_peer_pubkey() == old(self).spec_peer_pubkey(),
            final(self).spec_peer_node_id() == old(self).spec_peer_node_id(),
            final(self).buffered_bytes() == old(self).buffered_bytes(),
            final(self).max_frame_size() == old(self).max_frame_size(),
    {
        self.state = SessionState::Closed;
    }

    /// The bytes of a complete frame to write (see `Framer::encode_frame`).
    pub fn encode_frame(&self, header: &FrameHeader, payload: &[u8]) -> (r: Result<
        Vec<u8>,
        FramerError,
    >)
        ensures
            spec_header_encodable(*header) ==> r is Ok && r->Ok_0@ == spec_header_bytes(*header)
                + payload@,
            !spec_header_encodable(*header) ==> r is Err && r->Err_0 == FramerError::Wire(
                WireError::InvalidVarInt,
            ),
    {
        self.framer.encode_frame(header, payload)
    }

    /// Hand bytes read from the transport to the framer.
    pub fn push_bytes(&mut self, data: &[u8])
        requires
            old(self).buffered_bytes().len() + data@.len() <= isize::MAX,
        ensures
            final(self).buffered_bytes() == old(self).buffered_bytes() + data@,
            final(self).max_frame_size() == old(self).max_frame_size(),
            final(self).spec_state() == old(self).spec_state(),
            final(self).has_cipher() == old(self).has_cipher(),
            final(self).cipher_key() == old(self).cipher_key(),
            final(self).cipher_direction() == old(self).cipher_direction(),
            final(self).cipher_counter() == old(self).cipher_counter(),
            final(self).identity_secret() == old(self).identity_secret(),
            final(self).spec_peer_pubkey() == old(self).spec_peer_pubkey(),
            final(self).spec_peer_node_id() == old(self).spec_peer_node_id(),
    {
        self.framer.push_bytes(data);
    }

    /// Take the next complete frame out of the framer (see `Framer::poll_frame`).
    pub fn poll_frame(&mut self) -> (r: Result<ReadProgress, FramerError>)
        requires
            old(self).max_frame_size() + 25 <= usize::MAX,
        ensures
            final(self).max_frame_size() == old(self).max_frame_size(),
            final(self).spec_state() == old(self).spec_state(),
            final(self).has_cipher() == old(self).has_cipher(),
            final(self).cipher_key() == old(self).cipher_key(),
            final(self).cipher_direction() == old(self).cipher_direction(),
            final(self).cipher_counter() == old(self).cipher_counter(),
            final(self).identity_secret() == old(self).identity_secret(),
            final(self).spec_peer_pubkey() == old(self).spec_peer_pubkey(),
            final(self).spec_peer_node_id() == old(self).spec_peer_node_id(),
            match spec_poll(old(self).buffered_bytes(), old(self).max_frame_size()) {
                PollOutcome::Failed(e) => r is Err && r->Err_0 == FramerError::Wire(e),
                PollOutcome::NeedHeader => r matches Ok(ReadProgress::NeedHeader),
                PollOutcome::NeedPayload { missing } => r matches Ok(ReadProgress::NeedPayload(m))
                    && m == missing,
                PollOutcome::Frame { header, header_len } => r matches Ok(
                    ReadProgress::Frame(h, p),
                ) && h == header && p@ == old(self).buffered_bytes().subrange(
                    header_len as int,
                    header_len + header.payload_len,
                ) && final(self).buffered_bytes() == old(self).buffered_bytes().skip(
                    header_len + header.payload_len,
                ),
            },
    {
        self.framer.poll_frame()
    }

    /// The nonce counter of the installed cipher, if any.
    pub fn nonce_counter(&self) -> (c: Option<u64>)
        ensures
            self.has_cipher() ==> c == Some(self.cipher_counter()),
            !self.has_cipher() ==> c is None,
    {
        match &self.cipher {
            Some(cipher) => Some(cipher.nonce_counter()),
            None => None,
        }
    }

    /// Number of bytes buffered by the framer.
    pub fn buffered(&self) -> (n: usize)
        ensures
            n == self.buffered_bytes().len(),
    {
        self.framer.buffered()
    }

    /// The largest payload the framer accepts.
    pub fn max_payload(&self) -> (m: u64)
        ensures
            m == self.max_frame_size(),
    {
        self.framer.max_payload()
    }

    /// What reading gives when the transport ends (see `Framer::end_of_stream`).
    pub fn end_of_stream(&self, pending: &ReadProgress) -> (r: Option<FramerError>)
        ensures
            r == spec_end_of_stream(self.buffered_bytes().len(), *pending),
    {
        self.framer.end_of_stream(pending)
    }
}

/// The encoding of a data header used as associated data.
fn encode_aad(header: &FrameHeader) -> (r: Result<Vec<u8>, String>)
    requires
        header.stream_id == 0,
        header.payload_len == 0,
    ensures
        r is Ok && r->Ok_0@ == spec_header_bytes(*header),
{
    let mut buf: Vec<u8> = Vec::new();
    let mut i: usize = 0;
    while i < 32
        invariant
            i <= 32,
            buf@.len() == i,
        decreases 32 - i,
    {
        buf.push(0u8);
        i = i + 1;
    }
    let n = match header.encode(buf.as_mut_slice()) {
        Ok(n) => n,
        Err(e) => {
            return Err(e.to_display_string());
        },
    };
    let aad = crate::bytes_util::to_vec(vstd::slice::slice_subrange(buf.as_slice(), 0, n));
    assert(aad@ =~= spec_header_bytes(*header));
    Ok(aad)
}

} // verus!
