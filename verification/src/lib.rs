//! Protocol Orzatty: an end-to-end encrypted peer-to-peer protocol.
//!
//! The library holds the verified core of the protocol: the binary wire
//! format, the cryptographic session layer built on outside crates, the
//! frame reassembly buffer, the handshake decisions and the session state
//! machine. Network I/O lives in the companion application crate.

pub mod text;
pub mod bytes_util;
pub mod wire;
pub mod crypto;
pub mod transport;
pub mod session;
pub mod node;
