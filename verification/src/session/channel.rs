//! Logical channels multiplexed over one connection.

use vstd::prelude::*;

verus! {

/// Control channel (handshake, ping, close).
pub const CONTROL: u32 = 0;
/// Default data channel.
pub const DEFAULT: u32 = 1;
/// File transfer channel.
pub const FILE_TRANSFER: u32 = 2;
/// First user-defined channel id.
pub const USER_START: u32 = 100;

} // verus!
