//! Frame types, carried in the lower four bits of the first header byte.

use vstd::prelude::*;
use crate::wire::error::WireError;
use crate::text::push_str;

verus! {

/// The type of a frame.
///
/// The variants are declared in the order of their wire codes, so `ty as u8`
/// is the code of `ty`.
#[derive(Debug, Clone, Copy, PartialEq, Eq, Hash, Structural)]
pub enum FrameType {
    /// Application data (code 0x00).
    Data,
    /// Handshake initiation (code 0x01).
    HandshakeInit,
    /// Handshake reply (code 0x02).
    HandshakeReply,
    /// Handshake confirmation (code 0x03).
    HandshakeComplete,
    /// Keep-alive ping (code 0x04).
    Ping,
    /// Ping response (code 0x05).
    Pong,
    /// Graceful connection close (code 0x06).
    Close,
    /// File transfer metadata (code 0x07).
    FileHeader,
    /// File data chunk (code 0x08).
    FileChunk,
    /// Acknowledgement (code 0x09).
    Ack,
}

/// The wire code of a frame type.
pub open spec fn spec_frame_type_code(ty: FrameType) -> u8 {
    match ty {
        FrameType::Data => 0x00,
        FrameType::HandshakeInit => 0x01,
        FrameType::HandshakeReply => 0x02,
        FrameType::HandshakeComplete => 0x03,
        FrameType::Ping => 0x04,
        FrameType::Pong => 0x05,
        FrameType::Close => 0x06,
        FrameType::FileHeader => 0x07,
        FrameType::FileChunk => 0x08,
        FrameType::Ack => 0x09,
    }
}

/// The frame type with wire code `value`, or `UnknownFrameType(value)`.
pub open spec fn spec_frame_type_from_u8(value: u8) -> Result<FrameType, WireError> {
    if value == 0x00 {
        Ok(FrameType::Data)
    } else if value == 0x01 {
        Ok(FrameType::HandshakeInit)
    } else if value == 0x02 {
        Ok(FrameType::HandshakeReply)
    } else if value == 0x03 {
        Ok(FrameType::HandshakeComplete)
    } else if value == 0x04 {
        Ok(FrameType::Ping)
    } else if value == 0x05 {
        Ok(FrameType::Pong)
    } else if value == 0x06 {
        Ok(FrameType::Close)
    } else if value == 0x07 {
        Ok(FrameType::FileHeader)
    } else if value == 0x08 {
        Ok(FrameType::FileChunk)
    } else if value == 0x09 {
        Ok(FrameType::Ack)
    } else {
        Err(WireError::UnknownFrameType(value))
    }
}

impl FrameType {
    /// Convert a raw code (0x00-0x0F) into a frame type.
    pub fn from_u8(value: u8) -> (r: Result<Self, WireError>)
        ensures
            r == spec_frame_type_from_u8(value),
    {
        match value {
            0x00 => Ok(Self::Data),
            0x01 => Ok(Self::HandshakeInit),
            0x02 => Ok(Self::HandshakeReply),
            0x03 => Ok(Self::HandshakeComplete),
            0x04 => Ok(Self::Ping),
            0x05 => Ok(Self::Pong),
            0x06 => Ok(Self::Close),
            0x07 => Ok(Self::FileHeader),
            0x08 => Ok(Self::FileChunk),
            0x09 => Ok(Self::Ack),
            other => Err(WireError::UnknownFrameType(other)),
        }
    }

    /// The wire code of this frame type.
    pub fn code(&self) -> (c: u8)
        ensures
            c == spec_frame_type_code(*self),
    {
        match self {
            Self::Data => 0x00,
            Self::HandshakeInit => 0x01,
            Self::HandshakeReply => 0x02,
            Self::HandshakeComplete => 0x03,
            Self::Ping => 0x04,
            Self::Pong => 0x05,
            Self::Close => 0x06,
            Self::FileHeader => 0x07,
            Self::FileChunk => 0x08,
            Self::Ack => 0x09,
        }
    }

    /// Returns `true` for the three handshake frame types.
    pub fn is_handshake(&self) -> (b: bool)
        ensures
            b == (*self is HandshakeInit || *self is HandshakeReply || *self is HandshakeComplete),
    {
        matches!(self, Self::HandshakeInit | Self::HandshakeReply | Self::HandshakeComplete)
    }

    /// Returns `true` for the control frame types (ping, pong, close).
    pub fn is_control(&self) -> (b: bool)
        ensures
            b == (*self is Ping || *self is Pong || *self is Close),
    {
        matches!(self, Self::Ping | Self::Pong | Self::Close)
    }

    /// Returns `true` for the frame types that carry file transfer data.
    pub fn is_file_transfer(&self) -> (b: bool)
        ensures
            b == (*self is FileHeader || *self is FileChunk),
    {
        matches!(self, Self::FileHeader | Self::FileChunk)
    }
}

/// The display name of a frame type.
pub open spec fn spec_frame_type_name(ty: FrameType) -> Seq<char> {
    match ty {
        FrameType::Data => "DATA"@,
        FrameType::HandshakeInit => "HS_INIT"@,
        FrameType::HandshakeReply => "HS_REPLY"@,
        FrameType::HandshakeComplete => "HS_COMPLETE"@,
        FrameType::Ping => "PING"@,
        FrameType::Pong => "PONG"@,
        FrameType::Close => "CLOSE"@,
        FrameType::FileHeader => "FILE_HDR"@,
        FrameType::FileChunk => "FILE_CHUNK"@,
        FrameType::Ack => "ACK"@,
    }
}

impl FrameType {
    /// Append the display name of this frame type to `s`.
    pub(crate) fn push_name(&self, s: &mut String)
        ensures
            final(s)@ == old(s)@ + spec_frame_type_name(*self),
    {
        match self {
            Self::Data => push_str(s, "DATA"),
            Self::HandshakeInit => push_str(s, "HS_INIT"),
            Self::HandshakeReply => push_str(s, "HS_REPLY"),
            Self::HandshakeComplete => push_str(s, "HS_COMPLETE"),
            Self::Ping => push_str(s, "PING"),
            Self::Pong => push_str(s, "PONG"),
            Self::Close => push_str(s, "CLOSE"),
            Self::FileHeader => push_str(s, "FILE_HDR"),
            Self::FileChunk => push_str(s, "FILE_CHUNK"),
            Self::Ack => push_str(s, "ACK"),
        }
    }

    /// The display name of this frame type (such as "DATA" or "HS_INIT").
    pub fn to_display_string(&self) -> (s: String)
        ensures
            s@ == spec_frame_type_name(*self),
    {
        let mut s = String::new();
        self.push_name(&mut s);
        s
    }
}

/// Every frame type is read back from its own code, and its code fits in the
/// four-bit type field.
pub proof fn lemma_frame_type_code_roundtrip(ty: FrameType)
    ensures
        spec_frame_type_code(ty) < 16,
        spec_frame_type_from_u8(spec_frame_type_code(ty)) == Ok::<FrameType, WireError>(ty),
{
}

/// A code that is accepted names the frame type whose code it is.
pub proof fn lemma_frame_type_from_code(value: u8)
    requires
        spec_frame_type_from_u8(value) is Ok,
    ensures
        spec_frame_type_code(spec_frame_type_from_u8(value)->Ok_0) == value,
        value <= 0x09,
{
}

} // verus!
