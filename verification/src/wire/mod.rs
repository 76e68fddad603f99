//! Binary frame encoding and decoding with QUIC-style variable-length integers.

pub mod error;
pub mod varint;
pub mod frame_type;

pub use error::WireError;
pub use frame_type::FrameType;
pub mod header;
