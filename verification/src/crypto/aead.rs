//! ChaCha20-Poly1305 authenticated encryption of frame payloads.
//!
//! Every encrypted payload is `nonce (12) || ciphertext || tag (16)`. The nonce
//! is made of a direction byte and a counter that increases with every
//! encryption, so a cipher never seals two payloads under the same nonce, and the
//! two sides of a session, which share one key, use disjoint nonces.

use vstd::prelude::*;
use crate::crypto::error::CryptoError;
use crate::crypto::primitives::{chacha20poly1305_seal, chacha20poly1305_open,
    spec_chacha20poly1305_seal, spec_chacha20poly1305_open, spec_chacha_block_limit};
use crate::crypto::exchange::SESSION_KEY_LEN;
use crate::text::{push_str, push_decimal, spec_decimal};

verus! {

/// Overhead added by encryption: 12-byte nonce and 16-byte authentication tag.
pub const ENCRYPTION_OVERHEAD: usize = 28;

/// Length of the nonce that precedes every ciphertext.
pub const NONCE_LEN: usize = 12;

/// The eight little-endian bytes of `x`.
pub open spec fn spec_u64_le_bytes(x: u64) -> Seq<u8> {
    seq![
        (x & 0xff) as u8,
        ((x >> 8u64) & 0xff) as u8,
        ((x >> 16u64) & 0xff) as u8,
        ((x >> 24u64) & 0xff) as u8,
        ((x >> 32u64) & 0xff) as u8,
        ((x >> 40u64) & 0xff) as u8,
        ((x >> 48u64) & 0xff) as u8,
        ((x >> 56u64) & 0xff) as u8,
    ]
}

/// The direction byte of the nonces sealed by the side that starts a session.
pub const INITIATOR_DIRECTION: u8 = 0;

/// The direction byte of the nonces sealed by the side that accepts a session.
pub const RESPONDER_DIRECTION: u8 = 1;

/// The nonce for direction `direction` and counter value `counter`: the direction
/// byte, three zero bytes, then the counter in little-endian order.
pub open spec fn spec_nonce(direction: u8, counter: u64) -> Seq<u8> {
    seq![direction, 0u8, 0u8, 0u8] + spec_u64_le_bytes(counter)
}

/// The text of the error for an input of `len` bytes, too short to be a ciphertext.
pub open spec fn spec_too_short_text(len: nat) -> Seq<char> {
    "ciphertext too short: "@ + spec_decimal(len) + " bytes (minimum "@ + spec_decimal(
        ENCRYPTION_OVERHEAD as nat,
    ) + ")"@
}

/// The text of the error for a ciphertext that does not authenticate.
pub open spec fn spec_tampered_text() -> Seq<char> {
    "decryption failed: invalid key, corrupted data, or tampered ciphertext"@
}

/// The text of the error when the cipher refuses to seal a message.
pub open spec fn spec_seal_failed_text() -> Seq<char> {
    "ChaCha20-Poly1305 encrypt failed: "@ + "aead::Error"@
}

/// A session cipher that encrypts and decrypts frame payloads under one session key.
pub struct SessionCipher {
    key: [u8; SESSION_KEY_LEN],
    direction: u8,
    nonce_counter: u64,
}

impl SessionCipher {
    /// The session key.
    pub closed spec fn key(&self) -> Seq<u8> {
        self.key@
    }

    /// The counter from which the next nonce is made.
    pub closed spec fn counter(&self) -> u64 {
        self.nonce_counter
    }

    /// The direction byte of the nonces this cipher seals with.
    pub closed spec fn direction(&self) -> u8 {
        self.direction
    }

    /// A cipher for the derived session key `session_key`, sealing with the
    /// initiator's direction byte, with its counter at zero.
    pub fn new(session_key: &[u8; SESSION_KEY_LEN]) -> (c: Self)
        ensures
            c.key() == session_key@,
            c.direction() == INITIATOR_DIRECTION,
            c.counter() == 0,
    {
        Self { key: *session_key, direction: INITIATOR_DIRECTION, nonce_counter: 0 }
    }

    /// A cipher for the derived session key `session_key`, sealing with the
    /// direction byte `direction`, with its counter at zero.
    pub fn with_direction(session_key: &[u8; SESSION_KEY_LEN], direction: u8) -> (c: Self)
        ensures
            c.key() == session_key@,
            c.direction() == direction,
            c.counter() == 0,
    {
        Self { key: *session_key, direction, nonce_counter: 0 }
    }

    /// Encrypt `plaintext`, binding it to `aad` (associated authenticated data, such
    /// as the frame header bytes).
    ///
    /// Returns `nonce || ciphertext || tag` (12 + plaintext.len() + 16 bytes). The
    /// counter advances by one whether or not sealing succeeds.
    pub fn encrypt(&mut self, plaintext: &[u8], aad: &[u8]) -> (r: Result<Vec<u8>, CryptoError>)
        requires
            plaintext@.len() + ENCRYPTION_OVERHEAD <= usize::MAX,
            old(self).counter() < u64::MAX,
        ensures
            final(self).key() == old(self).key(),
            final(self).direction() == old(self).direction(),
            final(self).counter() == old(self).counter() + 1,
            r is Ok <==> plaintext@.len() / 64 < spec_chacha_block_limit(),
            r is Ok ==> r->Ok_0@ == spec_nonce(old(self).direction(), old(self).counter())
                + spec_chacha20poly1305_seal(
                old(self).key(),
                spec_nonce(old(self).direction(), old(self).counter()),
                aad@,
                plaintext@,
            ),
            r is Ok ==> r->Ok_0@.len() == plaintext@.len() + ENCRYPTION_OVERHEAD,
            r is Err ==> r->Err_0 is Encrypt && r->Err_0->Encrypt_0@ == spec_seal_failed_text(),
    {
        let nonce = self.next_nonce();
        let sealed = match chacha20poly1305_seal(&self.key, &nonce, aad, plaintext) {
            Ok(v) => v,
            Err(e) => {
                let mut m = String::new();
                push_str(&mut m, "ChaCha20-Poly1305 encrypt failed: ");
                push_str(&mut m, e.as_str());
                return Err(CryptoError::Encrypt(m));
            },
        };
        let mut output: Vec<u8> = Vec::new();
        let mut i: usize = 0;
        while i < NONCE_LEN
            invariant
                i <= NONCE_LEN,
                output@ == nonce@.take(i as int),
            decreases NONCE_LEN - i,
        {
            output.push(nonce[i]);
            proof {
                assert(nonce@.take(i + 1) =~= nonce@.take(i as int).push(nonce@[i as int]));
            }
            i = i + 1;
        }
        let mut j: usize = 0;
        while j < sealed.len()
            invariant
                j <= sealed@.len(),
                output@ == nonce@ + sealed@.take(j as int),
            decreases sealed@.len() - j,
        {
            output.push(sealed[j]);
            proof {
                assert(sealed@.take(j + 1) =~= sealed@.take(j as int).push(sealed@[j as int]));
            }
            j = j + 1;
        }
        assert(sealed@.take(j as int) =~= sealed@);
        assert(nonce@.take(12) =~= nonce@);
        Ok(output)
    }

    /// Decrypt a payload made by `encrypt`: `nonce (12) || ciphertext || tag (16)`,
    /// with the same `aad` that was used to encrypt it.
    ///
    /// Decrypting what `encrypt` produced under the same key and `aad` gives back
    /// the plaintext.
    pub fn decrypt(&self, encrypted: &[u8], aad: &[u8]) -> (r: Result<Vec<u8>, CryptoError>)
        ensures
            encrypted@.len() < ENCRYPTION_OVERHEAD ==> r is Err && r->Err_0 is Decrypt
                && r->Err_0->Decrypt_0@ == spec_too_short_text(encrypted@.len()),
            encrypted@.len() >= ENCRYPTION_OVERHEAD ==> match spec_chacha20poly1305_open(
                self.key(),
                encrypted@.take(12),
                aad@,
                encrypted@.skip(12),
            ) {
                Some(p) => r is Ok && r->Ok_0@ == p,
                None => r is Err && r->Err_0 is Decrypt && r->Err_0->Decrypt_0@
                    == spec_tampered_text(),
            },
            forall|p: Seq<u8>, d: u8, c: u64|
                #![trigger spec_chacha20poly1305_seal(self.key(), spec_nonce(d, c), aad@, p)]
                p.len() / 64 < spec_chacha_block_limit() && encrypted@.len() == p.len()
                    + ENCRYPTION_OVERHEAD && encrypted@ == spec_nonce(d, c)
                    + spec_chacha20poly1305_seal(self.key(), spec_nonce(d, c), aad@, p) ==> r is Ok
                    && r->Ok_0@ == p,
    {
        if encrypted.len() < ENCRYPTION_OVERHEAD {
            let mut m = String::new();
            push_str(&mut m, "ciphertext too short: ");
            push_decimal(&mut m, encrypted.len() as u64);
            push_str(&mut m, " bytes (minimum ");
            push_decimal(&mut m, ENCRYPTION_OVERHEAD as u64);
            push_str(&mut m, ")");
            return Err(CryptoError::Decrypt(m));
        }
        let mut nonce = [0u8; NONCE_LEN];
        let mut i: usize = 0;
        while i < NONCE_LEN
            invariant
                i <= NONCE_LEN,
                NONCE_LEN <= encrypted@.len(),
                forall|k: int| 0 <= k < i ==> nonce@[k] == encrypted@[k],
                nonce@.len() == NONCE_LEN,
            decreases NONCE_LEN - i,
        {
            nonce[i] = encrypted[i];
            i = i + 1;
        }
        assert(nonce@ =~= encrypted@.take(12));
        let ghost key_bytes = self.key@;
        let ciphertext = vstd::slice::slice_subrange(encrypted, NONCE_LEN, encrypted.len());
        assert(ciphertext@ =~= encrypted@.skip(12));
        let opened = chacha20poly1305_open(&self.key, &nonce, aad, ciphertext);
        proof {
            assert forall|p: Seq<u8>, d: u8, c: u64|
                #![trigger spec_chacha20poly1305_seal(self.key(), spec_nonce(d, c), aad@, p)]
                p.len() / 64 < spec_chacha_block_limit() && encrypted@ == spec_nonce(d, c)
                    + spec_chacha20poly1305_seal(self.key(), spec_nonce(d, c), aad@, p) implies opened
                is Some && opened->Some_0@ == p by {
                assert(encrypted@.take(12) =~= spec_nonce(d, c));
                assert(encrypted@.skip(12) =~= spec_chacha20poly1305_seal(
                    self.key(),
                    spec_nonce(d, c),
                    aad@,
                    p,
                ));
                assert(nonce@ == spec_nonce(d, c));
                assert(ciphertext@ == spec_chacha20poly1305_seal(key_bytes, nonce@, aad@, p));
            }
        }
        match opened {
            Some(p) => Ok(p),
            None => {
                let mut m = String::new();
                push_str(&mut m, "decryption failed: invalid key, corrupted data, or tampered ciphertext");
                Err(CryptoError::Decrypt(m))
            },
        }
    }

    /// The next 12-byte nonce: the direction byte, three zero bytes, then the
    /// counter in little-endian order. Advances the counter.
    fn next_nonce(&mut self) -> (nonce: [u8; NONCE_LEN])
        requires
            old(self).nonce_counter < u64::MAX,
        ensures
            nonce@ == spec_nonce(old(self).direction, old(self).nonce_counter),
            final(self).nonce_counter == old(self).nonce_counter + 1,
            final(self).key == old(self).key,
            final(self).direction == old(self).direction,
    {
        let c = self.nonce_counter;
        let mut nonce = [0u8; NONCE_LEN];
        nonce[0] = self.direction;
        nonce[4] = (c & 0xff) as u8;
        nonce[5] = ((c >> 8u64) & 0xff) as u8;
        nonce[6] = ((c >> 16u64) & 0xff) as u8;
        nonce[7] = ((c >> 24u64) & 0xff) as u8;
        nonce[8] = ((c >> 32u64) & 0xff) as u8;
        nonce[9] = ((c >> 40u64) & 0xff) as u8;
        nonce[10] = ((c >> 48u64) & 0xff) as u8;
        nonce[11] = ((c >> 56u64) & 0xff) as u8;
        self.nonce_counter = c + 1;
        assert(nonce@ =~= spec_nonce(self.direction, c));
        nonce
    }

    /// The current value of the nonce counter: the number of encryptions so far.
    pub fn nonce_counter(&self) -> (c: u64)
        ensures
            c == self.counter(),
    {
        self.nonce_counter
    }
}

/// Distinct pairs of direction and counter give distinct nonces: a cipher never
/// reuses a nonce, and ciphers of different directions never share one.
pub proof fn lemma_nonce_injective(da: u8, a: u64, db: u8, b: u64)
    requires
        da != db || a != b,
    ensures
        spec_nonce(da, a) != spec_nonce(db, b),
{
    let na = spec_nonce(da, a);
    let nb = spec_nonce(db, b);
    if na == nb {
        assert(na[0] == da && nb[0] == db);
        assert(na[4] == nb[4] && na[5] == nb[5] && na[6] == nb[6] && na[7] == nb[7] && na[8]
            == nb[8] && na[9] == nb[9] && na[10] == nb[10] && na[11] == nb[11]);
        assert(((a & 0xff) as u8) == ((b & 0xff) as u8) && (((a >> 8u64) & 0xff) as u8) == (((b
            >> 8u64) & 0xff) as u8) && (((a >> 16u64) & 0xff) as u8) == (((b >> 16u64) & 0xff) as u8)
            && (((a >> 24u64) & 0xff) as u8) == (((b >> 24u64) & 0xff) as u8) && (((a >> 32u64)
            & 0xff) as u8) == (((b >> 32u64) & 0xff) as u8) && (((a >> 40u64) & 0xff) as u8) == (((b
            >> 40u64) & 0xff) as u8) && (((a >> 48u64) & 0xff) as u8) == (((b >> 48u64) & 0xff) as u8)
            && (((a >> 56u64) & 0xff) as u8) == (((b >> 56u64) & 0xff) as u8) ==> a == b)
            by (bit_vector);
    }
}

/// The two sides of a session share one key but never one nonce: every nonce the
/// initiator's cipher seals with differs from every nonce the responder's cipher
/// seals with.
pub proof fn lemma_directions_disjoint(initiator_counter: u64, responder_counter: u64)
    ensures
        spec_nonce(INITIATOR_DIRECTION, initiator_counter) != spec_nonce(
            RESPONDER_DIRECTION,
            responder_counter,
        ),
{
    lemma_nonce_injective(INITIATOR_DIRECTION, initiator_counter, RESPONDER_DIRECTION, responder_counter);
}

} // verus!
