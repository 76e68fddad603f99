//! The cryptographic primitives this library takes from outside crates.
//!
//! Each function here makes one call into `chacha20poly1305`, `hkdf`, `sha2`,
//! `x25519_dalek` or `ed25519_dalek` and states what the crate's source or
//! documentation shows of it. The results of the algorithms themselves are
//! named by the uninterpreted spec functions below; nothing here proves them.

use vstd::prelude::*;
use chacha20poly1305::aead::{Aead, KeyInit, Payload};
use ed25519_dalek::{Signer, Verifier};
use sha2::Digest;

verus! {

/// The output (ciphertext followed by the 16-byte tag) of ChaCha20-Poly1305 sealing
/// `msg` with `aad` under `key` and `nonce`.
pub uninterp spec fn spec_chacha20poly1305_seal(
    key: Seq<u8>,
    nonce: Seq<u8>,
    aad: Seq<u8>,
    msg: Seq<u8>,
) -> Seq<u8>;

/// The plaintext of ChaCha20-Poly1305 opening `ciphertext` (ciphertext followed by
/// the tag) with `aad` under `key` and `nonce`, or `None` when it does not authenticate.
pub uninterp spec fn spec_chacha20poly1305_open(
    key: Seq<u8>,
    nonce: Seq<u8>,
    aad: Seq<u8>,
    ciphertext: Seq<u8>,
) -> Option<Seq<u8>>;

/// The first 32 bytes of HKDF-SHA256 output keying material, with no salt, for
/// input keying material `ikm` and info `info`.
pub uninterp spec fn spec_hkdf_sha256_32(ikm: Seq<u8>, info: Seq<u8>) -> Seq<u8>;

/// The SHA-256 digest of `data`.
pub uninterp spec fn spec_sha256(data: Seq<u8>) -> Seq<u8>;

/// The X25519 public key of the secret scalar bytes `secret`.
pub uninterp spec fn spec_x25519_public(secret: Seq<u8>) -> Seq<u8>;

/// The X25519 shared secret of `secret` with the peer public key `peer`.
pub uninterp spec fn spec_x25519_shared(secret: Seq<u8>, peer: Seq<u8>) -> Seq<u8>;

/// The Ed25519 public key of the secret key bytes `secret`.
pub uninterp spec fn spec_ed25519_public(secret: Seq<u8>) -> Seq<u8>;

/// The Ed25519 signature of `msg` under the secret key bytes `secret`.
pub uninterp spec fn spec_ed25519_sign(secret: Seq<u8>, msg: Seq<u8>) -> Seq<u8>;

/// Whether `public` decompresses to a curve point, i.e. is usable as an Ed25519
/// verifying key.
pub uninterp spec fn spec_ed25519_key_valid(public: Seq<u8>) -> bool;

/// Whether `signature` is a valid Ed25519 signature of `msg` under `public`.
pub uninterp spec fn spec_ed25519_verify(public: Seq<u8>, msg: Seq<u8>, signature: Seq<u8>) -> bool;

/// Largest number of 64-byte blocks (exclusive) ChaCha20-Poly1305 accepts in a message.
pub open spec fn spec_chacha_block_limit() -> nat {
    0xFFFF_FFFF
}

/// `ChaCha20Poly1305::new(key).encrypt(nonce, Payload { msg, aad })`.
///
/// The crate fails only when the message has `u32::MAX` or more 64-byte blocks,
/// and then with `aead::Error`, whose text is "aead::Error". The output is the
/// ciphertext (as long as `msg`) followed by the 16-byte tag.
#[verifier::external_body]
pub(crate) fn chacha20poly1305_seal(key: &[u8; 32], nonce: &[u8; 12], aad: &[u8], msg: &[u8]) -> (r:
    Result<Vec<u8>, String>)
    requires
        msg@.len() + 16 <= usize::MAX,
    ensures
        r is Ok <==> msg@.len() / 64 < spec_chacha_block_limit(),
        r is Ok ==> r->Ok_0@ == spec_chacha20poly1305_seal(key@, nonce@, aad@, msg@),
        r is Ok ==> r->Ok_0@.len() == msg@.len() + 16,
        r is Err ==> r->Err_0@ == "aead::Error"@,
{
    let cipher = chacha20poly1305::ChaCha20Poly1305::new(key.into());
    match cipher.encrypt(nonce.into(), Payload { msg, aad }) {
        Ok(sealed) => Ok(sealed),
        Err(e) => Err(e.to_string()),
    }
}

/// `ChaCha20Poly1305::new(key).decrypt(nonce, Payload { msg: ciphertext, aad })`.
///
/// The crate refuses inputs shorter than the 16-byte tag and inputs that do not
/// authenticate. Opening what sealing produced, under the same key, nonce and
/// associated data, gives back the sealed message (the documented round trip).
#[verifier::external_body]
pub(crate) fn chacha20poly1305_open(key: &[u8; 32], nonce: &[u8; 12], aad: &[u8], ciphertext: &[u8]) -> (r:
    Option<Vec<u8>>)
    ensures
        match r {
            Some(p) => spec_chacha20poly1305_open(key@, nonce@, aad@, ciphertext@) == Some(p@),
            None => spec_chacha20poly1305_open(key@, nonce@, aad@, ciphertext@) is None,
        },
        ciphertext@.len() < 16 ==> r is None,
        r is Some ==> r->Some_0@.len() + 16 == ciphertext@.len(),
        forall|m: Seq<u8>|
            #![trigger spec_chacha20poly1305_seal(key@, nonce@, aad@, m)]
            m.len() / 64 < spec_chacha_block_limit() && ciphertext@ == spec_chacha20poly1305_seal(
                key@,
                nonce@,
                aad@,
                m,
            ) ==> r is Some && r->Some_0@ == m,
{
    let cipher = chacha20poly1305::ChaCha20Poly1305::new(key.into());
    cipher.decrypt(nonce.into(), Payload { msg: ciphertext, aad }).ok()
}

/// `Hkdf::<Sha256>::new(None, ikm).expand(info, &mut okm)` with a 32-byte `okm`.
///
/// The crate refuses only outputs longer than 255 * 32 bytes, so a 32-byte
/// expansion always succeeds.
#[verifier::external_body]
pub(crate) fn hkdf_sha256_expand_32(ikm: &[u8], info: &[u8]) -> (r: Option<[u8; 32]>)
    ensures
        r is Some,
        r is Some ==> r->Some_0@ == spec_hkdf_sha256_32(ikm@, info@),
{
    let hk = hkdf::Hkdf::<sha2::Sha256>::new(None, ikm);
    let mut okm = [0u8; 32];
    match hk.expand(info, &mut okm) {
        Ok(()) => Some(okm),
        Err(_) => None,
    }
}

/// `Sha256::digest(data)`, a 32-byte digest.
#[verifier::external_body]
pub(crate) fn sha256(data: &[u8]) -> (r: [u8; 32])
    ensures
        r@ == spec_sha256(data@),
{
    sha2::Sha256::digest(data).into()
}

/// `StaticSecret::random_from_rng(OsRng).to_bytes()`: 32 bytes from the operating
/// system's random number generator. Nothing is stated of their value.
#[verifier::external_body]
pub(crate) fn x25519_random_secret() -> (r: [u8; 32]) {
    x25519_dalek::StaticSecret::random_from_rng(rand::rngs::OsRng).to_bytes()
}

/// `PublicKey::from(&StaticSecret::from(secret)).to_bytes()`.
///
/// The crate computes the public key as the clamped scalar times the base point,
/// and the shared secret as the clamped scalar times the peer point; hence two
/// parties agree: the secret shared by `a` with the public key of `b` is the
/// secret shared by `b` with the public key of `a` (the documented exchange).
#[verifier::external_body]
pub(crate) fn x25519_public(secret: &[u8; 32]) -> (r: [u8; 32])
    ensures
        r@ == spec_x25519_public(secret@),
        forall|other: Seq<u8>|
            #![trigger spec_x25519_shared(other, r@)]
            spec_x25519_shared(other, r@) == spec_x25519_shared(secret@, spec_x25519_public(other)),
{
    let s = x25519_dalek::StaticSecret::from(*secret);
    x25519_dalek::PublicKey::from(&s).to_bytes()
}

/// `StaticSecret::from(secret).diffie_hellman(&PublicKey::from(peer)).to_bytes()`.
#[verifier::external_body]
pub(crate) fn x25519_shared(secret: &[u8; 32], peer: &[u8; 32]) -> (r: [u8; 32])
    ensures
        r@ == spec_x25519_shared(secret@, peer@),
{
    let s = x25519_dalek::StaticSecret::from(*secret);
    s.diffie_hellman(&x25519_dalek::PublicKey::from(*peer)).to_bytes()
}

/// `SigningKey::generate(&mut OsRng).to_bytes()`: a fresh secret key from the
/// operating system's random number generator. Nothing is stated of its value.
#[verifier::external_body]
pub(crate) fn ed25519_random_secret() -> (r: [u8; 32]) {
    ed25519_dalek::SigningKey::generate(&mut rand::rngs::OsRng).to_bytes()
}

/// `SigningKey::from_bytes(secret).verifying_key().to_bytes()`.
///
/// A verifying key derived from a secret key is the compression of a curve point,
/// so it always decompresses again; every signature made with the secret key is
/// 64 bytes long and verifies under this key (the documented sign-then-verify
/// round trip).
#[verifier::external_body]
pub(crate) fn ed25519_public(secret: &[u8; 32]) -> (r: [u8; 32])
    ensures
        r@ == spec_ed25519_public(secret@),
        spec_ed25519_key_valid(r@),
        forall|m: Seq<u8>|
            #![trigger spec_ed25519_sign(secret@, m)]
            spec_ed25519_verify(r@, m, spec_ed25519_sign(secret@, m)),
        forall|m: Seq<u8>|
            #![trigger spec_ed25519_sign(secret@, m)]
            spec_ed25519_verify(r@, m, spec_ed25519_sign(secret@, m)) ==> spec_ed25519_sign(
                secret@,
                m,
            ).len() == 64,
{
    ed25519_dalek::SigningKey::from_bytes(secret).verifying_key().to_bytes()
}

/// `SigningKey::from_bytes(secret).sign(msg).to_bytes()` (deterministic Ed25519).
#[verifier::external_body]
pub(crate) fn ed25519_sign(secret: &[u8; 32], msg: &[u8]) -> (r: [u8; 64])
    ensures
        r@ == spec_ed25519_sign(secret@, msg@),
{
    ed25519_dalek::SigningKey::from_bytes(secret).sign(msg).to_bytes()
}

/// Whether `VerifyingKey::from_bytes(public)` succeeds.
#[verifier::external_body]
pub(crate) fn ed25519_key_valid(public: &[u8; 32]) -> (r: bool)
    ensures
        r == spec_ed25519_key_valid(public@),
{
    ed25519_dalek::VerifyingKey::from_bytes(public).is_ok()
}

/// `VerifyingKey::from_bytes(public)?.verify(msg, &Signature::from_bytes(signature)).is_ok()`.
///
/// A signature made with a secret key verifies under that key's public key (the
/// documented sign-then-verify round trip).
#[verifier::external_body]
pub(crate) fn ed25519_verify(public: &[u8; 32], msg: &[u8], signature: &[u8; 64]) -> (r: bool)
    requires
        spec_ed25519_key_valid(public@),
    ensures
        r == spec_ed25519_verify(public@, msg@, signature@),
        forall|secret: Seq<u8>|
            #![trigger spec_ed25519_sign(secret, msg@)]
            public@ == spec_ed25519_public(secret) && signature@ == spec_ed25519_sign(secret, msg@)
                ==> r,
{
    match ed25519_dalek::VerifyingKey::from_bytes(public) {
        Ok(key) => key.verify(msg, &ed25519_dalek::Signature::from_bytes(signature)).is_ok(),
        Err(_) => false,
    }
}

} // verus!
