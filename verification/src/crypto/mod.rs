//! Cryptographic primitives: Ed25519 identities, X25519 key exchange and
//! ChaCha20-Poly1305 session encryption.

pub mod primitives;
pub mod error;

pub use error::CryptoError;
pub mod exchange;
pub mod aead;
pub mod identity;
