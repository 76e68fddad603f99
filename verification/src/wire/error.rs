//! Errors of the wire format.

use vstd::prelude::*;
use crate::text::{push_str, push_decimal, push_hex_byte, spec_decimal, spec_hex_byte};

verus! {

/// Errors that occur during frame encoding or decoding.
#[derive(Debug, Clone, Copy, PartialEq, Eq, Structural)]
pub enum WireError {
    /// The output buffer is too small to hold the encoded data.
    BufferTooSmall {
        /// Minimum bytes needed to complete the operation.
        needed: usize,
        /// Bytes actually available in the buffer.
        available: usize,
    },
    /// The input does not hold a complete item yet: read more bytes and retry.
    Incomplete {
        /// Minimum bytes needed (estimate).
        needed_min: usize,
        /// Bytes currently available.
        available: usize,
    },
    /// A variable-length integer is malformed (its value is out of range).
    InvalidVarInt,
    /// The frame type nibble does not map to a known frame type.
    UnknownFrameType(u8),
    /// The declared payload length exceeds the configured maximum.
    PayloadTooLarge {
        /// Declared payload length.
        declared: u64,
        /// Maximum allowed by configuration.
        max_allowed: u64,
    },
}


/// The human-readable text of a wire error.
pub open spec fn spec_wire_error_text(e: WireError) -> Seq<char> {
    match e {
        WireError::BufferTooSmall { needed, available } => "buffer too small: need "@
            + spec_decimal(needed as nat) + " bytes, have "@ + spec_decimal(available as nat),
        WireError::Incomplete { needed_min, available } => "incomplete input: need at least "@
            + spec_decimal(needed_min as nat) + " bytes, have "@ + spec_decimal(available as nat),
        WireError::InvalidVarInt => "malformed VarInt encoding"@,
        WireError::UnknownFrameType(t) => "unknown frame type: "@ + "0x"@ + spec_hex_byte(t),
        WireError::PayloadTooLarge { declared, max_allowed } => "payload too large: "@
            + spec_decimal(declared as nat) + " bytes (max "@ + spec_decimal(max_allowed as nat)
            + ")"@,
    }
}

impl WireError {
    /// The human-readable text of this error.
    pub fn to_display_string(&self) -> (s: String)
        ensures
            s@ == spec_wire_error_text(*self),
    {
        let mut s = String::new();
        match *self {
            WireError::BufferTooSmall { needed, available } => {
                push_str(&mut s, "buffer too small: need ");
                push_decimal(&mut s, needed as u64);
                push_str(&mut s, " bytes, have ");
                push_decimal(&mut s, available as u64);
            },
            WireError::Incomplete { needed_min, available } => {
                push_str(&mut s, "incomplete input: need at least ");
                push_decimal(&mut s, needed_min as u64);
                push_str(&mut s, " bytes, have ");
                push_decimal(&mut s, available as u64);
            },
            WireError::InvalidVarInt => {
                push_str(&mut s, "malformed VarInt encoding");
            },
            WireError::UnknownFrameType(t) => {
                push_str(&mut s, "unknown frame type: ");
                push_str(&mut s, "0x");
                push_hex_byte(&mut s, t);
            },
            WireError::PayloadTooLarge { declared, max_allowed } => {
                push_str(&mut s, "payload too large: ");
                push_decimal(&mut s, declared);
                push_str(&mut s, " bytes (max ");
                push_decimal(&mut s, max_allowed);
                push_str(&mut s, ")");
            },
        }
        s
    }
}

} // verus!
