//! Errors of the cryptographic layer.

use vstd::prelude::*;
use crate::text::push_str;

verus! {

/// Errors from cryptographic operations.
#[derive(Debug)]
pub enum CryptoError {
    /// Key generation or derivation failed.
    KeyGeneration(String),
    /// Encryption failed.
    Encrypt(String),
    /// Decryption failed (bad key, corrupted data, or tampered ciphertext).
    Decrypt(String),
    /// Signature verification failed.
    InvalidSignature,
    /// The handshake message is malformed or has an unexpected length.
    MalformedHandshake(String),
}

/// The human-readable text of a cryptographic error.
pub open spec fn spec_crypto_error_text(e: CryptoError) -> Seq<char> {
    match e {
        CryptoError::KeyGeneration(m) => "key generation failed: "@ + m@,
        CryptoError::Encrypt(m) => "encryption failed: "@ + m@,
        CryptoError::Decrypt(m) => "decryption failed: "@ + m@,
        CryptoError::InvalidSignature => "invalid signature"@,
        CryptoError::MalformedHandshake(m) => "malformed handshake: "@ + m@,
    }
}

impl CryptoError {
    /// The human-readable text of this error.
    pub fn to_display_string(&self) -> (s: String)
        ensures
            s@ == spec_crypto_error_text(*self),
    {
        let mut s = String::new();
        match self {
            CryptoError::KeyGeneration(m) => {
                push_str(&mut s, "key generation failed: ");
                push_str(&mut s, m.as_str());
            },
            CryptoError::Encrypt(m) => {
                push_str(&mut s, "encryption failed: ");
                push_str(&mut s, m.as_str());
            },
            CryptoError::Decrypt(m) => {
                push_str(&mut s, "decryption failed: ");
                push_str(&mut s, m.as_str());
            },
            CryptoError::InvalidSignature => {
                push_str(&mut s, "invalid signature");
            },
            CryptoError::MalformedHandshake(m) => {
                push_str(&mut s, "malformed handshake: ");
                push_str(&mut s, m.as_str());
            },
        }
        s
    }
}

} // verus!
