//! Ed25519 identities of nodes.
//!
//! Every node has an Ed25519 keypair. Its `NodeId` is the SHA-256 digest of the
//! public key.

use vstd::prelude::*;
use crate::crypto::primitives::{sha256, ed25519_random_secret, ed25519_public, ed25519_sign,
    ed25519_key_valid, ed25519_verify, spec_sha256, spec_ed25519_public, spec_ed25519_sign,
    spec_ed25519_key_valid, spec_ed25519_verify};
use crate::text::{hex_encode, spec_hex};

verus! {

/// A 32-byte node identifier: the SHA-256 digest of the node's Ed25519 public key.
#[derive(Debug, Clone, Copy, PartialEq, Eq, Hash)]
pub struct NodeId(pub [u8; 32]);

impl NodeId {
    /// The identifier bytes.
    pub open spec fn bytes(&self) -> Seq<u8> {
        self.0@
    }

    /// The identifier of the node whose Ed25519 public key is `pubkey`.
    pub fn from_public_key(pubkey: &[u8; 32]) -> (id: Self)
        ensures
            id.bytes() == spec_sha256(pubkey@),
    {
        NodeId(sha256(pubkey))
    }

    /// Short hexadecimal rendering: the first 4 bytes, 8 digits.
    pub fn short(&self) -> (s: String)
        ensures
            s@ == spec_hex(self.bytes().take(4)),
    {
        let prefix = vstd::slice::slice_subrange(self.0.as_slice(), 0, 4);
        assert(prefix@ =~= self.bytes().take(4));
        hex_encode(prefix)
    }

    /// Full hexadecimal rendering: 64 digits.
    pub fn to_hex(&self) -> (s: String)
        ensures
            s@ == spec_hex(self.bytes()),
    {
        hex_encode(self.0.as_slice())
    }

    /// The text shown for this identifier: its short rendering.
    pub fn to_display_string(&self) -> (s: String)
        ensures
            s@ == spec_hex(self.bytes().take(4)),
    {
        self.short()
    }
}

/// `public` is the Ed25519 public key of `secret`: a valid verifying key under
/// which every 64-byte signature made with `secret` verifies.
pub open spec fn spec_ed25519_identity(secret: Seq<u8>, public: Seq<u8>) -> bool {
    &&& public == spec_ed25519_public(secret)
    &&& spec_ed25519_key_valid(public)
    &&& forall|m: Seq<u8>|
        #![trigger spec_ed25519_sign(secret, m)]
        spec_ed25519_sign(secret, m).len() == 64 && spec_ed25519_verify(
            public,
            m,
            spec_ed25519_sign(secret, m),
        )
}

/// A node's cryptographic identity: an Ed25519 keypair and the node id derived from it.
pub struct Identity {
    secret: [u8; 32],
    verifying: [u8; 32],
    node_id: NodeId,
}

impl Identity {
    /// The public key and the node id belong to the secret key.
    #[verifier::type_invariant]
    spec fn keys_agree(&self) -> bool {
        &&& spec_ed25519_identity(self.secret@, self.verifying@)
        &&& self.node_id.bytes() == spec_sha256(self.verifying@)
    }

    /// The Ed25519 secret key bytes.
    pub closed spec fn secret(&self) -> Seq<u8> {
        self.secret@
    }

    /// A new random identity from the operating system's random number generator.
    ///
    /// Its public key is the one of its secret key: a valid verifying key under
    /// which every signature made with the secret key verifies.
    pub fn generate() -> (id: Self)
        ensures
            spec_ed25519_identity(id.secret(), spec_ed25519_public(id.secret())),
    {
        let secret = ed25519_random_secret();
        let id = Self::from_bytes(&secret);
        proof {
            use_type_invariant(&id);
        }
        id
    }

    /// The identity of the Ed25519 secret key bytes `secret`.
    pub fn from_bytes(secret: &[u8; 32]) -> (id: Self)
        ensures
            id.secret() == secret@,
    {
        let verifying = ed25519_public(secret);
        let node_id = NodeId::from_public_key(&verifying);
        Self { secret: *secret, verifying, node_id }
    }

    /// The node's identifier.
    pub fn node_id(&self) -> (id: &NodeId)
        ensures
            id.bytes() == spec_sha256(spec_ed25519_public(self.secret())),
    {
        proof {
            use_type_invariant(self);
        }
        &self.node_id
    }

    /// The Ed25519 public key, to share with peers.
    pub fn public_key(&self) -> (pk: &[u8; 32])
        ensures
            pk@ == spec_ed25519_public(self.secret()),
            spec_ed25519_identity(self.secret(), pk@),
    {
        proof {
            use_type_invariant(self);
        }
        &self.verifying
    }

    /// The raw public key bytes.
    pub fn public_key_bytes(&self) -> (pk: [u8; 32])
        ensures
            pk@ == spec_ed25519_public(self.secret()),
            spec_ed25519_identity(self.secret(), pk@),
    {
        proof {
            use_type_invariant(self);
        }
        self.verifying
    }

    /// The raw secret key bytes. Handle with care.
    pub fn secret_key_bytes(&self) -> (sk: [u8; 32])
        ensures
            sk@ == self.secret(),
    {
        self.secret
    }

    /// Sign `data` with this node's Ed25519 key.
    pub fn sign(&self, data: &[u8]) -> (sig: [u8; 64])
        ensures
            sig@ == spec_ed25519_sign(self.secret(), data@),
    {
        ed25519_sign(&self.secret, data)
    }

    /// Verify `signature` over `data` against the public key `pubkey`; a key that is
    /// not a valid Ed25519 point verifies nothing.
    ///
    /// A signature made by an identity verifies under that identity's public key.
    pub fn verify(pubkey: &[u8; 32], data: &[u8], signature: &[u8; 64]) -> (ok: bool)
        ensures
            ok == (spec_ed25519_key_valid(pubkey@) && spec_ed25519_verify(
                pubkey@,
                data@,
                signature@,
            )),
            forall|secret: Seq<u8>|
                #![trigger spec_ed25519_sign(secret, data@)]
                pubkey@ == spec_ed25519_public(secret) && spec_ed25519_key_valid(pubkey@)
                    && signature@ == spec_ed25519_sign(secret, data@) ==> ok,
    {
        if !ed25519_key_valid(pubkey) {
            return false;
        }
        ed25519_verify(pubkey, data, signature)
    }
}

} // verus!
