//! The cryptographic handshake, as decisions on received messages.
//!
//! 1. Initiator to responder: `HandshakeInit` (Ed25519 key, ephemeral X25519 key,
//!    timestamp, signature).
//! 2. Responder to initiator: `HandshakeReply` (Ed25519 key, ephemeral X25519 key,
//!    signature over both ephemeral keys).
//! 3. Initiator to responder: `HandshakeComplete` ("PO_READY" encrypted with the
//!    new session key).
//!
//! Each step here takes the message received and returns the message to send;
//! sending, receiving and (de)serialising is done by the caller.

use vstd::prelude::*;
use crate::bytes_util::{extend_bytes, to_vec, bytes_equal};
use crate::crypto::aead::{SessionCipher, spec_nonce, spec_u64_le_bytes, ENCRYPTION_OVERHEAD,
    INITIATOR_DIRECTION, RESPONDER_DIRECTION};
use crate::crypto::exchange::{EphemeralKeypair, spec_session_key, spec_x25519_keypair};
use crate::crypto::identity::{Identity, NodeId, spec_ed25519_identity};
use crate::crypto::primitives::{spec_x25519_shared, spec_x25519_public, spec_chacha20poly1305_seal, spec_chacha20poly1305_open,
    spec_ed25519_public, spec_ed25519_sign, spec_ed25519_key_valid, spec_ed25519_verify,
    spec_sha256, ed25519_key_valid, ed25519_verify};
use crate::session::framer::{FramerError, spec_framer_error_text};
use crate::session::message::{HandshakeInit, HandshakeInitView, HandshakeReply,
    HandshakeReplyView, HandshakeComplete};
use crate::text::{push_str, push_decimal, spec_decimal};
use crate::wire::frame_type::{FrameType, spec_frame_type_name};

verus! {

/// The protocol version spoken by this implementation.
pub const PROTOCOL_VERSION: u8 = 1;

/// Largest accepted difference between the initiator's timestamp and the
/// responder's clock, in milliseconds.
pub const TIMESTAMP_TOLERANCE_MS: u64 = 30_000;

/// Handshake errors.
#[derive(Debug)]
pub enum HandshakeError {
    Framer(FramerError),
    Serialization(String),
    InvalidSignature,
    InvalidKey,
    UnsupportedVersion(u8),
    TimestampExpired,
    KeyDerivation(String),
    Encryption(String),
    ConfirmationFailed,
    ConnectionClosed,
    UnexpectedFrame(FrameType),
}

/// The human-readable text of a handshake error.
pub open spec fn spec_handshake_error_text(e: HandshakeError) -> Seq<char> {
    match e {
        HandshakeError::Framer(f) => "framer: "@ + spec_framer_error_text(f),
        HandshakeError::Serialization(m) => "serialization: "@ + m@,
        HandshakeError::InvalidSignature => "invalid signature"@,
        HandshakeError::InvalidKey => "invalid public key"@,
        HandshakeError::UnsupportedVersion(v) => "unsupported protocol version: "@ + spec_decimal(
            v as nat,
        ),
        HandshakeError::TimestampExpired => "handshake timestamp expired"@,
        HandshakeError::KeyDerivation(m) => "key derivation: "@ + m@,
        HandshakeError::Encryption(m) => "encryption: "@ + m@,
        HandshakeError::ConfirmationFailed => "handshake confirmation failed"@,
        HandshakeError::ConnectionClosed => "connection closed during handshake"@,
        HandshakeError::UnexpectedFrame(t) => "unexpected frame type: "@ + spec_frame_type_name(t),
    }
}

impl HandshakeError {
    /// The human-readable text of this error.
    pub fn to_display_string(&self) -> (s: String)
        ensures
            s@ == spec_handshake_error_text(*self),
    {
        let mut s = String::new();
        match self {
            HandshakeError::Framer(f) => {
                push_str(&mut s, "framer: ");
                let t = f.to_display_string();
                push_str(&mut s, t.as_str());
            },
            HandshakeError::Serialization(m) => {
                push_str(&mut s, "serialization: ");
                push_str(&mut s, m.as_str());
            },
            HandshakeError::InvalidSignature => push_str(&mut s, "invalid signature"),
            HandshakeError::InvalidKey => push_str(&mut s, "invalid public key"),
            HandshakeError::UnsupportedVersion(v) => {
                push_str(&mut s, "unsupported protocol version: ");
                push_decimal(&mut s, *v as u64);
            },
            HandshakeError::TimestampExpired => push_str(&mut s, "handshake timestamp expired"),
            HandshakeError::KeyDerivation(m) => {
                push_str(&mut s, "key derivation: ");
                push_str(&mut s, m.as_str());
            },
            HandshakeError::Encryption(m) => {
                push_str(&mut s, "encryption: ");
                push_str(&mut s, m.as_str());
            },
            HandshakeError::ConfirmationFailed => push_str(&mut s, "handshake confirmation failed"),
            HandshakeError::ConnectionClosed => push_str(
                &mut s,
                "connection closed during handshake",
            ),
            HandshakeError::UnexpectedFrame(t) => {
                push_str(&mut s, "unexpected frame type: ");
                t.push_name(&mut s);
            },
        }
        s
    }
}

/// The bytes "po-v1-" that start the key derivation context.
pub open spec fn spec_context_label() -> Seq<u8> {
    seq![0x70u8, 0x6fu8, 0x2du8, 0x76u8, 0x31u8, 0x2du8]
}

/// The confirmation token "PO_READY".
pub open spec fn spec_confirmation_token() -> Seq<u8> {
    seq![0x50u8, 0x4fu8, 0x5fu8, 0x52u8, 0x45u8, 0x41u8, 0x44u8, 0x59u8]
}

/// The associated data "handshake-complete" of the confirmation.
pub open spec fn spec_confirmation_aad() -> Seq<u8> {
    seq![
        0x68u8, 0x61u8, 0x6eu8, 0x64u8, 0x73u8, 0x68u8, 0x61u8, 0x6bu8, 0x65u8, 0x2du8, 0x63u8,
        0x6fu8, 0x6du8, 0x70u8, 0x6cu8, 0x65u8, 0x74u8, 0x65u8,
    ]
}

/// The bytes the initiator signs: `version || x25519_ephemeral || timestamp (LE)`.
pub open spec fn spec_init_signed_data(version: u8, ephemeral: Seq<u8>, timestamp: u64) -> Seq<u8> {
    seq![version] + ephemeral + spec_u64_le_bytes(timestamp)
}

/// The bytes the responder signs: both ephemeral keys, the initiator's first.
pub open spec fn spec_reply_signed_data(initiator_ephemeral: Seq<u8>, responder_ephemeral: Seq<u8>) -> Seq<u8> {
    initiator_ephemeral + responder_ephemeral
}

/// The key derivation context: "po-v1-", then the initiator's and the responder's
/// Ed25519 public keys, in that order on both sides.
pub open spec fn spec_session_context(initiator_pubkey: Seq<u8>, responder_pubkey: Seq<u8>) -> Seq<u8> {
    spec_context_label() + initiator_pubkey + responder_pubkey
}

/// Whether `timestamp` lies within the tolerance of the clock value `now`.
pub open spec fn spec_timestamp_fresh(timestamp: u64, now: u64) -> bool {
    let drift = if now >= timestamp {
        now - timestamp
    } else {
        timestamp - now
    };
    drift <= TIMESTAMP_TOLERANCE_MS
}

/// Whether `signature` is an Ed25519 signature of `data` under the valid key `pubkey`,
/// checked in the order the handshake checks it.
pub open spec fn spec_check_signature(pubkey: Seq<u8>, data: Seq<u8>, signature: Seq<u8>) -> Result<
    (),
    HandshakeError,
> {
    if !spec_ed25519_key_valid(pubkey) {
        Err(HandshakeError::InvalidKey)
    } else if signature.len() != 64 {
        Err(HandshakeError::InvalidSignature)
    } else if !spec_ed25519_verify(pubkey, data, signature) {
        Err(HandshakeError::InvalidSignature)
    } else {
        Ok(())
    }
}

/// What the responder decides on a received `HandshakeInit` at clock value `now`.
pub open spec fn spec_check_init(init: HandshakeInitView, now: u64) -> Result<(), HandshakeError> {
    if init.version != PROTOCOL_VERSION {
        Err(HandshakeError::UnsupportedVersion(init.version))
    } else {
        match spec_check_signature(
            init.ed25519_pubkey,
            spec_init_signed_data(init.version, init.x25519_ephemeral, init.timestamp),
            init.signature,
        ) {
            Err(e) => Err(e),
            Ok(()) => if !spec_timestamp_fresh(init.timestamp, now) {
                Err(HandshakeError::TimestampExpired)
            } else {
                Ok(())
            },
        }
    }
}

/// What the initiator, whose ephemeral public key is `our_ephemeral`, decides on a
/// received `HandshakeReply`.
pub open spec fn spec_check_reply(our_ephemeral: Seq<u8>, reply: HandshakeReplyView) -> Result<
    (),
    HandshakeError,
> {
    spec_check_signature(
        reply.ed25519_pubkey,
        spec_reply_signed_data(our_ephemeral, reply.x25519_ephemeral),
        reply.signature,
    )
}

/// The `HandshakeInit` sent by the identity with secret key `secret`, with
/// ephemeral public key `ephemeral` and timestamp `timestamp`.
pub open spec fn spec_init_message(secret: Seq<u8>, ephemeral: Seq<u8>, timestamp: u64) -> HandshakeInitView {
    HandshakeInitView {
        version: PROTOCOL_VERSION,
        ed25519_pubkey: spec_ed25519_public(secret),
        x25519_ephemeral: ephemeral,
        timestamp,
        signature: spec_ed25519_sign(
            secret,
            spec_init_signed_data(PROTOCOL_VERSION, ephemeral, timestamp),
        ),
    }
}

/// The `HandshakeReply` sent by the identity with secret key `secret`, with
/// ephemeral public key `ephemeral`, to an initiator whose ephemeral key is
/// `initiator_ephemeral`.
pub open spec fn spec_reply_message(secret: Seq<u8>, initiator_ephemeral: Seq<u8>, ephemeral: Seq<u8>) -> HandshakeReplyView {
    HandshakeReplyView {
        ed25519_pubkey: spec_ed25519_public(secret),
        x25519_ephemeral: ephemeral,
        signature: spec_ed25519_sign(secret, spec_reply_signed_data(initiator_ephemeral, ephemeral)),
    }
}

/// The confirmation sealed under `key` with the initiator's first nonce.
pub open spec fn spec_confirmation(key: Seq<u8>) -> Seq<u8> {
    spec_nonce(INITIATOR_DIRECTION, 0) + spec_chacha20poly1305_seal(
        key,
        spec_nonce(INITIATOR_DIRECTION, 0),
        spec_confirmation_aad(),
        spec_confirmation_token(),
    )
}

/// Result of a successful handshake.
pub struct HandshakeResult {
    /// The session cipher for encrypting and decrypting frames.
    pub cipher: SessionCipher,
    /// The peer's verified Ed25519 public key.
    pub peer_pubkey: [u8; 32],
    /// The peer's node id (SHA-256 of its public key).
    pub peer_node_id: NodeId,
}

fn confirmation_token() -> (t: [u8; 8])
    ensures
        t@ == spec_confirmation_token(),
{
    let t = [0x50u8, 0x4fu8, 0x5fu8, 0x52u8, 0x45u8, 0x41u8, 0x44u8, 0x59u8];
    assert(t@ =~= spec_confirmation_token());
    t
}

fn confirmation_aad() -> (a: [u8; 18])
    ensures
        a@ == spec_confirmation_aad(),
{
    let a = [
        0x68u8, 0x61u8, 0x6eu8, 0x64u8, 0x73u8, 0x68u8, 0x61u8, 0x6bu8, 0x65u8, 0x2du8, 0x63u8,
        0x6fu8, 0x6du8, 0x70u8, 0x6cu8, 0x65u8, 0x74u8, 0x65u8,
    ];
    assert(a@ =~= spec_confirmation_aad());
    a
}

fn push_u64_le(v: &mut Vec<u8>, x: u64)
    ensures
        final(v)@ == old(v)@ + spec_u64_le_bytes(x),
{
    v.push((x & 0xff) as u8);
    v.push(((x >> 8u64) & 0xff) as u8);
    v.push(((x >> 16u64) & 0xff) as u8);
    v.push(((x >> 24u64) & 0xff) as u8);
    v.push(((x >> 32u64) & 0xff) as u8);
    v.push(((x >> 40u64) & 0xff) as u8);
    v.push(((x >> 48u64) & 0xff) as u8);
    v.push(((x >> 56u64) & 0xff) as u8);
    assert(v@ =~= old(v)@ + spec_u64_le_bytes(x));
}

/// The bytes the initiator signs.
fn build_init_signed_data(version: u8, ephemeral: &[u8; 32], timestamp: u64) -> (d: Vec<u8>)
    ensures
        d@ == spec_init_signed_data(version, ephemeral@, timestamp),
{
    let mut d: Vec<u8> = Vec::new();
    d.push(version);
    extend_bytes(&mut d, ephemeral.as_slice());
    push_u64_le(&mut d, timestamp);
    assert(d@ =~= spec_init_signed_data(version, ephemeral@, timestamp));
    d
}

/// The bytes the responder signs.
fn build_reply_signed_data(initiator_ephemeral: &[u8; 32], responder_ephemeral: &[u8; 32]) -> (d: Vec<u8>)
    ensures
        d@ == spec_reply_signed_data(initiator_ephemeral@, responder_ephemeral@),
{
    let mut d: Vec<u8> = Vec::new();
    extend_bytes(&mut d, initiator_ephemeral.as_slice());
    extend_bytes(&mut d, responder_ephemeral.as_slice());
    assert(d@ =~= spec_reply_signed_data(initiator_ephemeral@, responder_ephemeral@));
    d
}

/// The key derivation context: "po-v1-", the initiator's public key, then the
/// responder's, so that both sides derive the same key.
pub fn build_session_context(initiator_pubkey: &[u8; 32], responder_pubkey: &[u8; 32]) -> (ctx: Vec<u8>)
    ensures
        ctx@ == spec_session_context(initiator_pubkey@, responder_pubkey@),
        ctx@ == seq![0x70u8, 0x6fu8, 0x2du8, 0x76u8, 0x31u8, 0x2du8] + initiator_pubkey@
            + responder_pubkey@,
{
    let mut ctx: Vec<u8> = Vec::new();
    let label = [0x70u8, 0x6fu8, 0x2du8, 0x76u8, 0x31u8, 0x2du8];
    assert(label@ =~= spec_context_label());
    extend_bytes(&mut ctx, label.as_slice());
    extend_bytes(&mut ctx, initiator_pubkey.as_slice());
    extend_bytes(&mut ctx, responder_pubkey.as_slice());
    assert(ctx@ =~= spec_session_context(initiator_pubkey@, responder_pubkey@));
    ctx
}

/// Check `signature` over `data` under `pubkey`: the key must be a valid point,
/// the signature 64 bytes long and valid.
fn check_signature(pubkey: &[u8; 32], data: &[u8], signature: &Vec<u8>) -> (r: Result<
    (),
    HandshakeError,
>)
    ensures
        r == spec_check_signature(pubkey@, data@, signature@),
{
    if !ed25519_key_valid(pubkey) {
        return Err(HandshakeError::InvalidKey);
    }
    if signature.len() != 64 {
        return Err(HandshakeError::InvalidSignature);
    }
    let mut sig = [0u8; 64];
    let mut i: usize = 0;
    while i < 64
        invariant
            i <= 64,
            signature@.len() == 64,
            sig@.len() == 64,
            forall|k: int| 0 <= k < i ==> sig@[k] == signature@[k],
        decreases 64 - i,
    {
        sig[i] = signature[i];
        i = i + 1;
    }
    assert(sig@ =~= signature@);
    if !ed25519_verify(pubkey, data, &sig) {
        return Err(HandshakeError::InvalidSignature);
    }
    Ok(())
}

/// Check that a received frame has the expected type.
pub fn check_frame_type(actual: FrameType, expected: FrameType) -> (r: Result<(), HandshakeError>)
    ensures
        actual == expected ==> r is Ok,
        actual != expected ==> r is Err && r->Err_0 == HandshakeError::UnexpectedFrame(actual),
{
    if actual != expected {
        return Err(HandshakeError::UnexpectedFrame(actual));
    }
    Ok(())
}

/// The initiator's state between sending `HandshakeInit` and receiving the reply.
pub struct InitiatorHandshake {
    ephemeral: EphemeralKeypair,
    our_pubkey: [u8; 32],
}

impl InitiatorHandshake {
    /// The ephemeral keypair is intact.
    pub closed spec fn wf(&self) -> bool {
        self.ephemeral.wf()
    }

    /// The ephemeral secret.
    pub closed spec fn ephemeral_secret(&self) -> Seq<u8> {
        self.ephemeral.secret()
    }

    /// The ephemeral public key sent in `HandshakeInit`.
    pub closed spec fn ephemeral_public(&self) -> Seq<u8> {
        self.ephemeral.public()
    }

    /// The initiator's own Ed25519 public key.
    pub closed spec fn our_pubkey(&self) -> Seq<u8> {
        self.our_pubkey@
    }

    /// Start a handshake with a fresh ephemeral key: the state to keep and the
    /// `HandshakeInit` to send, stamped with `timestamp` (Unix milliseconds).
    pub fn start(identity: &Identity, timestamp: u64) -> (r: (Self, HandshakeInit))
        ensures
            r.0.wf(),
            spec_x25519_keypair(r.0.ephemeral_secret(), r.0.ephemeral_public()),
            r.0.our_pubkey() == spec_ed25519_public(identity.secret()),
            r.1@ == spec_init_message(identity.secret(), r.0.ephemeral_public(), timestamp),
    {
        let ephemeral = EphemeralKeypair::generate();
        proof {
            ephemeral.lemma_wf_keypair();
        }
        Self::start_with(identity, ephemeral, timestamp)
    }

    /// Start a handshake with the given ephemeral keypair.
    pub fn start_with(identity: &Identity, ephemeral: EphemeralKeypair, timestamp: u64) -> (r: (
        Self,
        HandshakeInit,
    ))
        requires
            ephemeral.wf(),
        ensures
            r.0.wf(),
            r.0.ephemeral_secret() == ephemeral.secret(),
            r.0.ephemeral_public() == ephemeral.public(),
            r.0.our_pubkey() == spec_ed25519_public(identity.secret()),
            r.1@ == spec_init_message(identity.secret(), ephemeral.public(), timestamp),
            r.1@.signature.len() == 64,
    {
        let our_eph_pub = ephemeral.public_bytes();
        let sign_data = build_init_signed_data(PROTOCOL_VERSION, &our_eph_pub, timestamp);
        let signature = identity.sign(sign_data.as_slice());
        let our_pubkey = identity.public_key_bytes();
        let init = HandshakeInit {
            version: PROTOCOL_VERSION,
            ed25519_pubkey: our_pubkey,
            x25519_ephemeral: our_eph_pub,
            timestamp,
            signature: to_vec(signature.as_slice()),
        };
        (Self { ephemeral, our_pubkey }, init)
    }

    /// Handle the responder's `HandshakeReply`: verify it, derive the session key,
    /// and produce the `HandshakeComplete` to send and the handshake result.
    pub fn finish(self, reply: &HandshakeReply) -> (r: Result<
        (HandshakeResult, HandshakeComplete),
        HandshakeError,
    >)
        requires
            self.wf(),
        ensures
            match spec_check_reply(self.ephemeral_public(), reply@) {
                Err(e) => r is Err && r->Err_0 == e,
                Ok(()) => r is Ok && {
                    let (result, complete) = r->Ok_0;
                    let key = spec_session_key(
                        self.ephemeral_secret(),
                        reply.x25519_ephemeral@,
                        spec_session_context(self.our_pubkey(), reply.ed25519_pubkey@),
                    );
                    &&& result.cipher.key() == key
                    &&& result.cipher.direction() == INITIATOR_DIRECTION
                    &&& result.cipher.counter() == 1
                    &&& result.peer_pubkey@ == reply.ed25519_pubkey@
                    &&& result.peer_node_id.bytes() == spec_sha256(reply.ed25519_pubkey@)
                    &&& complete.confirmation@ == spec_confirmation(key)
                    &&& complete.confirmation@.len() == spec_confirmation_token().len()
                        + ENCRYPTION_OVERHEAD
                },
            },
    {
        let our_eph_pub = self.ephemeral.public_bytes();
        let verify_data = build_reply_signed_data(&our_eph_pub, &reply.x25519_ephemeral);
        match check_signature(&reply.ed25519_pubkey, verify_data.as_slice(), &reply.signature) {
            Ok(()) => {},
            Err(e) => {
                return Err(e);
            },
        }
        let context = build_session_context(&self.our_pubkey, &reply.ed25519_pubkey);
        proof {
            self.ephemeral.lemma_wf_has_secret();
        }
        let session_key = match self.ephemeral.derive_session_key(
            &reply.x25519_ephemeral,
            context.as_slice(),
        ) {
            Ok(k) => k,
            Err(e) => {
                return Err(HandshakeError::KeyDerivation(e.to_display_string()));
            },
        };
        let mut cipher = SessionCipher::new(session_key.as_bytes());
        let token = confirmation_token();
        let aad = confirmation_aad();
        let confirmation = match cipher.encrypt(token.as_slice(), aad.as_slice()) {
            Ok(c) => c,
            Err(e) => {
                return Err(HandshakeError::Encryption(e.to_display_string()));
            },
        };
        let peer_node_id = NodeId::from_public_key(&reply.ed25519_pubkey);
        Ok(
            (
                HandshakeResult { cipher, peer_pubkey: reply.ed25519_pubkey, peer_node_id },
                HandshakeComplete { confirmation },
            ),
        )
    }
}

/// Check a received `HandshakeInit` at clock value `now` (Unix milliseconds): the
/// version, the initiator's key and signature, then the timestamp's freshness.
pub fn check_init(init: &HandshakeInit, now: u64) -> (r: Result<(), HandshakeError>)
    ensures
        r == spec_check_init(init@, now),
{
    if init.version != PROTOCOL_VERSION {
        return Err(HandshakeError::UnsupportedVersion(init.version));
    }
    let verify_data = build_init_signed_data(init.version, &init.x25519_ephemeral, init.timestamp);
    match check_signature(&init.ed25519_pubkey, verify_data.as_slice(), &init.signature) {
        Ok(()) => {},
        Err(e) => {
            return Err(e);
        },
    }
    let drift = if now >= init.timestamp {
        now - init.timestamp
    } else {
        init.timestamp - now
    };
    if drift > TIMESTAMP_TOLERANCE_MS {
        return Err(HandshakeError::TimestampExpired);
    }
    Ok(())
}

/// The responder's state between sending `HandshakeReply` and receiving the
/// confirmation.
pub struct ResponderHandshake {
    cipher: SessionCipher,
    peer_pubkey: [u8; 32],
}

impl ResponderHandshake {
    /// The session key derived for this handshake.
    pub closed spec fn key(&self) -> Seq<u8> {
        self.cipher.key()
    }

    /// The nonce counter of the session cipher.
    pub closed spec fn counter(&self) -> u64 {
        self.cipher.counter()
    }

    /// The direction byte of the nonces the session cipher seals with.
    pub closed spec fn direction(&self) -> u8 {
        self.cipher.direction()
    }

    /// The initiator's Ed25519 public key.
    pub closed spec fn peer_pubkey(&self) -> Seq<u8> {
        self.peer_pubkey@
    }

    /// Handle a received `HandshakeInit` at clock value `now`: check it, then make a
    /// fresh ephemeral key, the `HandshakeReply` to send and the session key.
    pub fn accept(identity: &Identity, init: &HandshakeInit, now: u64) -> (r: Result<
        (Self, HandshakeReply),
        HandshakeError,
    >)
        ensures
            match spec_check_init(init@, now) {
                Err(e) => r is Err && r->Err_0 == e,
                Ok(()) => r is Ok && r->Ok_0.0.peer_pubkey() == init.ed25519_pubkey@
                    && r->Ok_0.0.counter() == 0 && r->Ok_0.0.direction() == RESPONDER_DIRECTION
                    && exists|e: Seq<u8>, ep: Seq<u8>|
                    #![trigger spec_x25519_keypair(e, ep)]
                    spec_x25519_keypair(e, ep) && r->Ok_0.1@ == spec_reply_message(
                        identity.secret(),
                        init.x25519_ephemeral@,
                        ep,
                    ) && r->Ok_0.0.key() == spec_session_key(
                        e,
                        init.x25519_ephemeral@,
                        spec_session_context(
                            init.ed25519_pubkey@,
                            spec_ed25519_public(identity.secret()),
                        ),
                    ),
            },
    {
        match check_init(init, now) {
            Ok(()) => {},
            Err(e) => {
                return Err(e);
            },
        }
        let ephemeral = EphemeralKeypair::generate();
        proof {
            ephemeral.lemma_wf_keypair();
        }
        let ghost e = ephemeral.secret();
        let ghost ep = ephemeral.public();
        let r = Self::reply_with(identity, init, ephemeral);
        assert(spec_x25519_keypair(e, ep));
        r
    }

    /// The reply to an accepted `HandshakeInit` with the given ephemeral keypair, and
    /// the responder's state with the derived session key.
    pub fn reply_with(identity: &Identity, init: &HandshakeInit, ephemeral: EphemeralKeypair) -> (r: Result<
        (Self, HandshakeReply),
        HandshakeError,
    >)
        requires
            ephemeral.wf(),
        ensures
            r is Ok,
            r is Ok ==> r->Ok_0.1@ == spec_reply_message(
                identity.secret(),
                init.x25519_ephemeral@,
                ephemeral.public(),
            ),
            r is Ok ==> r->Ok_0.0.key() == spec_session_key(
                ephemeral.secret(),
                init.x25519_ephemeral@,
                spec_session_context(init.ed25519_pubkey@, spec_ed25519_public(identity.secret())),
            ),
            r is Ok ==> r->Ok_0.0.counter() == 0,
            r is Ok ==> r->Ok_0.0.direction() == RESPONDER_DIRECTION,
            r is Ok ==> r->Ok_0.0.peer_pubkey() == init.ed25519_pubkey@,
    {
        let our_eph_pub = ephemeral.public_bytes();
        let sign_data = build_reply_signed_data(&init.x25519_ephemeral, &our_eph_pub);
        let signature = identity.sign(sign_data.as_slice());
        let our_pubkey = identity.public_key_bytes();
        let reply = HandshakeReply {
            ed25519_pubkey: our_pubkey,
            x25519_ephemeral: our_eph_pub,
            signature: to_vec(signature.as_slice()),
        };
        let context = build_session_context(&init.ed25519_pubkey, &our_pubkey);
        proof {
            ephemeral.lemma_wf_has_secret();
        }
        let session_key = match ephemeral.derive_session_key(
            &init.x25519_ephemeral,
            context.as_slice(),
        ) {
            Ok(k) => k,
            Err(e) => {
                return Err(HandshakeError::KeyDerivation(e.to_display_string()));
            },
        };
        let cipher = SessionCipher::with_direction(session_key.as_bytes(), RESPONDER_DIRECTION);
        Ok((Self { cipher, peer_pubkey: init.ed25519_pubkey }, reply))
    }

    /// Handle the initiator's `HandshakeComplete`: the confirmation must decrypt to
    /// "PO_READY".
    ///
    /// A confirmation sealed under this handshake's session key with the first
    /// nonce is accepted.
    pub fn finish(self, complete: &HandshakeComplete) -> (r: Result<HandshakeResult, HandshakeError>)
        ensures
            r is Ok <==> (complete.confirmation@.len() >= ENCRYPTION_OVERHEAD
                && spec_chacha20poly1305_open(
                self.key(),
                complete.confirmation@.take(12),
                spec_confirmation_aad(),
                complete.confirmation@.skip(12),
            ) == Some(spec_confirmation_token())),
            r is Err ==> r->Err_0 == HandshakeError::ConfirmationFailed,
            r is Ok ==> r->Ok_0.cipher.key() == self.key() && r->Ok_0.cipher.counter()
                == self.counter() && r->Ok_0.cipher.direction() == self.direction() && r->Ok_0.peer_pubkey@ == self.peer_pubkey()
                && r->Ok_0.peer_node_id.bytes() == spec_sha256(self.peer_pubkey()),
            complete.confirmation@ == spec_confirmation(self.key())
                && complete.confirmation@.len() == spec_confirmation_token().len()
                + ENCRYPTION_OVERHEAD ==> r is Ok,
    {
        let aad = confirmation_aad();
        let decrypted = match self.cipher.decrypt(complete.confirmation.as_slice(), aad.as_slice()) {
            Ok(d) => d,
            Err(_) => {
                return Err(HandshakeError::ConfirmationFailed);
            },
        };
        let token = confirmation_token();
        if !bytes_equal(decrypted.as_slice(), token.as_slice()) {
            return Err(HandshakeError::ConfirmationFailed);
        }
        let peer_node_id = NodeId::from_public_key(&self.peer_pubkey);
        Ok(HandshakeResult { cipher: self.cipher, peer_pubkey: self.peer_pubkey, peer_node_id })
    }
}

/// An honest handshake goes through and both sides derive the same session key.
///
/// Between two identities and two ephemeral X25519 keypairs, when the initiator's
/// timestamp lies within the tolerance of the responder's clock: the responder
/// accepts the initiator's `HandshakeInit`, the initiator accepts the responder's
/// `HandshakeReply`, and the key the initiator derives equals the key the
/// responder derives (so the initiator's confirmation is sealed under the
/// responder's key, which `ResponderHandshake::finish` accepts).
pub proof fn lemma_honest_handshake(
    initiator_secret: Seq<u8>,
    initiator_public: Seq<u8>,
    responder_secret: Seq<u8>,
    responder_public: Seq<u8>,
    initiator_ephemeral: Seq<u8>,
    initiator_ephemeral_public: Seq<u8>,
    responder_ephemeral: Seq<u8>,
    responder_ephemeral_public: Seq<u8>,
    timestamp: u64,
    now: u64,
)
    requires
        spec_ed25519_identity(initiator_secret, initiator_public),
        spec_ed25519_identity(responder_secret, responder_public),
        spec_x25519_keypair(initiator_ephemeral, initiator_ephemeral_public),
        spec_x25519_keypair(responder_ephemeral, responder_ephemeral_public),
        spec_timestamp_fresh(timestamp, now),
    ensures
        ({
            let init = spec_init_message(initiator_secret, initiator_ephemeral_public, timestamp);
            let reply = spec_reply_message(
                responder_secret,
                init.x25519_ephemeral,
                responder_ephemeral_public,
            );
            let initiator_key = spec_session_key(
                initiator_ephemeral,
                reply.x25519_ephemeral,
                spec_session_context(initiator_public, reply.ed25519_pubkey),
            );
            let responder_key = spec_session_key(
                responder_ephemeral,
                init.x25519_ephemeral,
                spec_session_context(init.ed25519_pubkey, responder_public),
            );
            &&& spec_check_init(init, now) == Ok::<(), HandshakeError>(())
            &&& spec_check_reply(initiator_ephemeral_public, reply) == Ok::<(), HandshakeError>(())
            &&& initiator_key == responder_key
            &&& spec_confirmation(initiator_key) == spec_confirmation(responder_key)
        }),
{
    let init_data = spec_init_signed_data(
        PROTOCOL_VERSION,
        initiator_ephemeral_public,
        timestamp,
    );
    let reply_data = spec_reply_signed_data(initiator_ephemeral_public, responder_ephemeral_public);
    assert(spec_ed25519_sign(initiator_secret, init_data).len() == 64);
    assert(spec_ed25519_sign(responder_secret, reply_data).len() == 64);
    assert(spec_x25519_shared(initiator_ephemeral, responder_ephemeral_public)
        == spec_x25519_shared(responder_ephemeral, spec_x25519_public(initiator_ephemeral)));
}

/// A `HandshakeInit` with the supported version and a valid signature is accepted
/// exactly when its timestamp lies at most 30 seconds before or after the
/// responder's clock `now`; otherwise it is refused as expired. In particular an
/// init stamped further ahead of the clock is refused as well as a stale one.
pub proof fn lemma_init_freshness(init: HandshakeInitView, now: u64)
    ensures
        spec_check_init(init, now) is Ok ==> -30_000 <= now - init.timestamp <= 30_000,
        init.version == PROTOCOL_VERSION && spec_check_signature(
            init.ed25519_pubkey,
            spec_init_signed_data(init.version, init.x25519_ephemeral, init.timestamp),
            init.signature,
        ) is Ok ==> {
            &&& -30_000 <= now - init.timestamp <= 30_000 ==> spec_check_init(init, now) is Ok
            &&& !(-30_000 <= now - init.timestamp <= 30_000) ==> spec_check_init(init, now)
                == Err::<(), HandshakeError>(HandshakeError::TimestampExpired)
        },
{
}

/// The key derivation context is the six bytes "po-v1-", then the initiator's
/// key, then the responder's key, whatever the keys are: the initiator's key
/// always comes first.
pub proof fn lemma_session_context_layout(initiator_pubkey: Seq<u8>, responder_pubkey: Seq<u8>)
    ensures
        ({
            let ctx = spec_session_context(initiator_pubkey, responder_pubkey);
            &&& ctx.len() == 6 + initiator_pubkey.len() + responder_pubkey.len()
            &&& ctx[0] == 0x70 && ctx[1] == 0x6f && ctx[2] == 0x2d && ctx[3] == 0x76
                && ctx[4] == 0x31 && ctx[5] == 0x2d
            &&& ctx.subrange(6, 6 + initiator_pubkey.len() as int) == initiator_pubkey
            &&& ctx.skip(6 + initiator_pubkey.len() as int) == responder_pubkey
        }),
{
    let ctx = spec_session_context(initiator_pubkey, responder_pubkey);
    assert(ctx.subrange(6, 6 + initiator_pubkey.len() as int) =~= initiator_pubkey);
    assert(ctx.skip(6 + initiator_pubkey.len() as int) =~= responder_pubkey);
}

} // verus!
