//! Session management: frame reassembly, the handshake and the session state machine.

pub mod channel;
pub mod framer;
pub mod message;
pub mod handshake;
pub mod state;

pub use framer::Framer;
pub use message::ProtocolMessage;
pub use state::{Session, SessionState};
