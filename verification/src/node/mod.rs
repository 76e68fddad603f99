//! The node layer: errors of the high-level API and LAN discovery beacons.

pub mod discovery;
pub mod error;

pub use error::{PoError, PoFfiError};
