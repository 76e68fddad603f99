//! X25519 key exchange and HKDF-SHA256 session key derivation.
//!
//! Each connection uses ephemeral X25519 keys. The shared secret goes through
//! HKDF-SHA256 to produce the session key, which gives perfect forward secrecy.

use vstd::prelude::*;
use crate::crypto::error::CryptoError;
use crate::crypto::primitives::{x25519_random_secret, x25519_public, x25519_shared,
    hkdf_sha256_expand_32, spec_x25519_public, spec_x25519_shared, spec_hkdf_sha256_32};
use crate::text::push_str;

verus! {

/// Length of a session key in bytes (256 bits, for ChaCha20-Poly1305).
pub const SESSION_KEY_LEN: usize = 32;

/// The session key that the holder of `secret` derives with the peer public key
/// `peer` and the HKDF info `context`.
pub open spec fn spec_session_key(secret: Seq<u8>, peer: Seq<u8>, context: Seq<u8>) -> Seq<u8> {
    spec_hkdf_sha256_32(spec_x25519_shared(secret, peer), context)
}

/// `public` is the X25519 public key of `secret`, and the secret that any other
/// key shares with `public` is the secret that `secret` shares with that key's
/// public key (as the key-exchange primitive states).
pub open spec fn spec_x25519_keypair(secret: Seq<u8>, public: Seq<u8>) -> bool {
    &&& public == spec_x25519_public(secret)
    &&& forall|other: Seq<u8>|
        #![trigger spec_x25519_shared(other, public)]
        spec_x25519_shared(other, public) == spec_x25519_shared(secret, spec_x25519_public(other))
}

/// A derived 256-bit session key.
pub struct SessionKey([u8; SESSION_KEY_LEN]);

impl SessionKey {
    /// The key bytes.
    pub closed spec fn bytes(&self) -> Seq<u8> {
        self.0@
    }

    /// The raw key bytes.
    pub fn as_bytes(&self) -> (b: &[u8; SESSION_KEY_LEN])
        ensures
            b@ == self.bytes(),
    {
        &self.0
    }
}

/// The text of the error for an expansion that HKDF refuses.
pub open spec fn spec_hkdf_failed_text() -> Seq<char> {
    "HKDF expand failed: "@ + "invalid number of blocks, too large output"@
}

/// Derive the session key from `secret`, the peer key `peer_public` and `context`.
fn derive_key(secret: &[u8; 32], peer_public: &[u8; 32], context: &[u8]) -> (r: Result<
    SessionKey,
    CryptoError,
>)
    ensures
        r is Ok,
        r is Ok ==> r->Ok_0.bytes() == spec_session_key(secret@, peer_public@, context@),
{
    let shared = x25519_shared(secret, peer_public);
    match hkdf_sha256_expand_32(&shared, context) {
        Some(key) => Ok(SessionKey(key)),
        None => {
            let mut m = String::new();
            push_str(&mut m, "HKDF expand failed: ");
            push_str(&mut m, "invalid number of blocks, too large output");
            Err(CryptoError::KeyGeneration(m))
        },
    }
}

/// An ephemeral X25519 keypair for a single session. Its secret is consumed by
/// the one key derivation it allows.
pub struct EphemeralKeypair {
    secret: Option<[u8; 32]>,
    public: [u8; 32],
}

impl EphemeralKeypair {
    /// Whether the secret is still held, and the public key belongs to it.
    pub closed spec fn wf(&self) -> bool {
        &&& self.secret matches Some(s)
        &&& spec_x25519_keypair(self.secret->Some_0@, self.public@)
    }

    /// Whether the secret is still held.
    pub closed spec fn has_secret(&self) -> bool {
        self.secret is Some
    }

    /// An intact keypair still holds its secret.
    pub proof fn lemma_wf_has_secret(&self)
        requires
            self.wf(),
        ensures
            self.has_secret(),
    {
    }

    /// An intact keypair is an X25519 keypair: its public key belongs to its secret.
    pub proof fn lemma_wf_keypair(&self)
        requires
            self.wf(),
        ensures
            spec_x25519_keypair(self.secret(), self.public()),
    {
    }

    /// The secret scalar bytes (meaningful while `has_secret()`).
    pub closed spec fn secret(&self) -> Seq<u8> {
        match self.secret {
            Some(s) => s@,
            None => Seq::empty(),
        }
    }

    /// The public key.
    pub closed spec fn public(&self) -> Seq<u8> {
        self.public@
    }

    /// A new keypair from the operating system's random number generator.
    pub fn generate() -> (k: Self)
        ensures
            k.wf(),
            k.public() == spec_x25519_public(k.secret()),
    {
        let secret = x25519_random_secret();
        Self::from_secret(secret)
    }

    /// The keypair of the given secret scalar bytes.
    pub fn from_secret(secret: [u8; 32]) -> (k: Self)
        ensures
            k.wf(),
            k.secret() == secret@,
            k.public() == spec_x25519_public(secret@),
    {
        let public = x25519_public(&secret);
        Self { secret: Some(secret), public }
    }

    /// The public key bytes to send to the peer.
    pub fn public_bytes(&self) -> (b: [u8; 32])
        ensures
            b@ == self.public(),
    {
        self.public
    }

    /// Perform the Diffie-Hellman exchange with the peer's public key and derive
    /// a session key through HKDF-SHA256 with `context` as info. Consumes the keypair.
    ///
    /// Two parties derive the same key: when `peer_public` is the public key of
    /// some secret `b`, the result is the key that `b` derives with this keypair's
    /// public key.
    pub fn derive_session_key(self, peer_public: &[u8; 32], context: &[u8]) -> (r: Result<
        SessionKey,
        CryptoError,
    >)
        ensures
            !self.has_secret() ==> r is Err && r->Err_0 is KeyGeneration,
            self.has_secret() ==> r is Ok && r->Ok_0.bytes() == spec_session_key(
                self.secret(),
                peer_public@,
                context@,
            ),
            self.wf() ==> forall|b: Seq<u8>|
                #![trigger spec_x25519_public(b)]
                peer_public@ == spec_x25519_public(b) ==> r is Ok && r->Ok_0.bytes()
                    == spec_session_key(b, self.public(), context@),
    {
        let secret = match self.secret {
            Some(s) => s,
            None => {
                let mut m = String::new();
                push_str(&mut m, "ephemeral secret already consumed");
                return Err(CryptoError::KeyGeneration(m));
            },
        };
        derive_key(&secret, peer_public, context)
    }
}

/// A static X25519 keypair, for keys that persist across sessions.
pub struct StaticKeypair {
    secret: [u8; 32],
    public: [u8; 32],
}

impl StaticKeypair {
    /// The public key belongs to the secret.
    pub closed spec fn wf(&self) -> bool {
        spec_x25519_keypair(self.secret@, self.public@)
    }

    /// The secret scalar bytes.
    pub closed spec fn secret(&self) -> Seq<u8> {
        self.secret@
    }

    /// The public key.
    pub closed spec fn public(&self) -> Seq<u8> {
        self.public@
    }

    /// A new keypair from the operating system's random number generator: its
    /// public key is the X25519 public key of its secret.
    pub fn generate() -> (k: Self)
        ensures
            k.wf(),
            k.public() == spec_x25519_public(k.secret()),
            spec_x25519_keypair(k.secret(), k.public()),
    {
        let secret = x25519_random_secret();
        let public = x25519_public(&secret);
        Self { secret, public }
    }

    /// The public key bytes.
    pub fn public_bytes(&self) -> (b: [u8; 32])
        ensures
            b@ == self.public(),
    {
        self.public
    }

    /// Perform the Diffie-Hellman exchange and derive a session key. The secret is
    /// kept, so the keypair can derive again.
    pub fn derive_session_key(&self, peer_public: &[u8; 32], context: &[u8]) -> (r: Result<
        SessionKey,
        CryptoError,
    >)
        ensures
            r is Ok,
            r is Ok ==> r->Ok_0.bytes() == spec_session_key(self.secret(), peer_public@, context@),
            self.wf() ==> forall|b: Seq<u8>|
                #![trigger spec_x25519_public(b)]
                peer_public@ == spec_x25519_public(b) ==> r is Ok && r->Ok_0.bytes()
                    == spec_session_key(b, self.public(), context@),
    {
        derive_key(&self.secret, peer_public, context)
    }
}

/// Two X25519 keypairs derive the same session key from each other's public keys,
/// whatever the context.
pub proof fn lemma_key_agreement(
    a_secret: Seq<u8>,
    a_public: Seq<u8>,
    b_secret: Seq<u8>,
    b_public: Seq<u8>,
    context: Seq<u8>,
)
    requires
        spec_x25519_keypair(a_secret, a_public),
        spec_x25519_keypair(b_secret, b_public),
    ensures
        spec_session_key(a_secret, b_public, context) == spec_session_key(
            b_secret,
            a_public,
            context,
        ),
{
    assert(spec_x25519_shared(b_secret, a_public) == spec_x25519_shared(a_secret, spec_x25519_public(b_secret)));
}

} // verus!
