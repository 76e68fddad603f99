//! The frame header that precedes every frame.
//!
//! ```text
//! Byte 0 | varint channel id | varint stream id | varint payload length
//!
//! Byte 0: bit 7 CTL, bit 6 PRI, bit 5 ENC, bit 4 reserved, bits 3-0 frame type
//! ```
//!
//! A header takes between 4 and 25 bytes.

use vstd::prelude::*;
use crate::wire::error::WireError;
use crate::wire::frame_type::{FrameType, spec_frame_type_code, spec_frame_type_from_u8,
    lemma_frame_type_code_roundtrip};
use crate::text::{push_str, push_decimal, spec_decimal};
use crate::wire::frame_type::spec_frame_type_name;
use crate::wire::varint::{self, VARINT_MAX, spec_encoded_len, spec_varint_bytes, spec_decode,
    lemma_decode_encode};

verus! {

/// Bit 7 of byte 0: control frame.
pub const FLAG_CONTROL: u8 = 0b1000_0000;
/// Bit 6 of byte 0: high priority.
pub const FLAG_PRIORITY: u8 = 0b0100_0000;
/// Bit 5 of byte 0: the payload is encrypted.
pub const FLAG_ENCRYPTED: u8 = 0b0010_0000;
/// Mask of the frame type (lower four bits of byte 0).
pub const TYPE_MASK: u8 = 0x0F;

/// Flags that modify how a frame is processed.
#[derive(Debug, Clone, Copy, PartialEq, Eq, Default, Structural)]
pub struct FrameFlags {
    /// Control frame (ping, pong, close).
    pub control: bool,
    /// High priority: bypass the normal processing queues.
    pub priority: bool,
    /// The payload is encrypted with the session cipher.
    pub encrypted: bool,
}

/// The upper bits of byte 0 that encode `flags`.
pub open spec fn spec_flag_bits(flags: FrameFlags) -> u8 {
    (if flags.control {
        FLAG_CONTROL
    } else {
        0u8
    }) | (if flags.priority {
        FLAG_PRIORITY
    } else {
        0u8
    }) | (if flags.encrypted {
        FLAG_ENCRYPTED
    } else {
        0u8
    })
}

/// The flags read from byte 0 (the reserved bit and the type bits are ignored).
pub open spec fn spec_flags_from_byte(byte: u8) -> FrameFlags {
    FrameFlags {
        control: byte & FLAG_CONTROL != 0,
        priority: byte & FLAG_PRIORITY != 0,
        encrypted: byte & FLAG_ENCRYPTED != 0,
    }
}

impl FrameFlags {
    /// Encode the flags into the upper bits of byte 0.
    pub(crate) fn to_bits(self) -> (bits: u8)
        ensures
            bits == spec_flag_bits(self),
    {
        let control = if self.control {
            FLAG_CONTROL
        } else {
            0u8
        };
        let priority = if self.priority {
            FLAG_PRIORITY
        } else {
            0u8
        };
        let encrypted = if self.encrypted {
            FLAG_ENCRYPTED
        } else {
            0u8
        };
        control | priority | encrypted
    }

    /// Decode the flags from byte 0.
    pub(crate) fn from_bits(byte: u8) -> (flags: Self)
        ensures
            flags == spec_flags_from_byte(byte),
    {
        Self {
            control: byte & FLAG_CONTROL != 0,
            priority: byte & FLAG_PRIORITY != 0,
            encrypted: byte & FLAG_ENCRYPTED != 0,
        }
    }
}


/// A decoded frame header. It does not own the payload: after decoding a header,
/// read `payload_len` more bytes to get the payload.
#[derive(Debug, Clone, Copy, PartialEq, Eq, Structural)]
pub struct FrameHeader {
    /// The type of this frame.
    pub frame_type: FrameType,
    /// Processing flags.
    pub flags: FrameFlags,
    /// Logical channel for application-level multiplexing.
    pub channel_id: u32,
    /// Stream identifier within the channel.
    pub stream_id: u64,
    /// Length of the payload that follows this header.
    pub payload_len: u64,
}

/// Byte 0 of the encoding of `h`: the flag bits and the frame type code.
pub open spec fn spec_first_byte(h: FrameHeader) -> u8 {
    spec_flag_bits(h.flags) | (spec_frame_type_code(h.frame_type) & TYPE_MASK)
}

/// Number of bytes of the encoding of `h`.
pub open spec fn spec_header_len(h: FrameHeader) -> nat {
    1 + spec_encoded_len(h.channel_id as u64) + spec_encoded_len(h.stream_id) + spec_encoded_len(
        h.payload_len,
    )
}

/// The encoding of `h` (meaningful when its stream id and payload length are at
/// most `VARINT_MAX`).
pub open spec fn spec_header_bytes(h: FrameHeader) -> Seq<u8> {
    seq![spec_first_byte(h)] + spec_varint_bytes(h.channel_id as u64) + spec_varint_bytes(
        h.stream_id,
    ) + spec_varint_bytes(h.payload_len)
}

/// Whether every field of `h` can be encoded.
pub open spec fn spec_header_encodable(h: FrameHeader) -> bool {
    h.stream_id <= VARINT_MAX && h.payload_len <= VARINT_MAX
}

/// What encoding `h` into a buffer of `available` bytes returns.
pub open spec fn spec_header_encode_result(h: FrameHeader, available: nat) -> Result<
    usize,
    WireError,
> {
    if available < spec_header_len(h) {
        Err(
            WireError::BufferTooSmall {
                needed: spec_header_len(h) as usize,
                available: available as usize,
            },
        )
    } else if !spec_header_encodable(h) {
        Err(WireError::InvalidVarInt)
    } else {
        Ok(spec_header_len(h) as usize)
    }
}

/// Decoding the variable-length integer at `offset` of `s`; an `Incomplete` error
/// counts the bytes needed from the start of `s`.
pub open spec fn spec_varint_at(s: Seq<u8>, offset: int) -> Result<(u64, usize), WireError> {
    match spec_decode(s.skip(offset)) {
        Err(WireError::Incomplete { needed_min, available: _ }) => Err(
            WireError::Incomplete {
                needed_min: (offset + needed_min) as usize,
                available: s.len() as usize,
            },
        ),
        other => other,
    }
}

/// What decoding a header from the start of `s` returns.
pub open spec fn spec_header_decode(s: Seq<u8>) -> Result<(FrameHeader, usize), WireError> {
    if s.len() == 0 {
        Err(WireError::Incomplete { needed_min: 4, available: 0 })
    } else {
        match spec_frame_type_from_u8(s[0] & TYPE_MASK) {
            Err(e) => Err(e),
            Ok(frame_type) => match spec_varint_at(s, 1) {
                Err(e) => Err(e),
                Ok((channel, n1)) => match spec_varint_at(s, 1 + n1) {
                    Err(e) => Err(e),
                    Ok((stream_id, n2)) => match spec_varint_at(s, 1 + n1 + n2) {
                        Err(e) => Err(e),
                        Ok((payload_len, n3)) => Ok(
                            (
                                FrameHeader {
                                    frame_type,
                                    flags: spec_flags_from_byte(s[0]),
                                    channel_id: channel as u32,
                                    stream_id,
                                    payload_len,
                                },
                                (1 + n1 + n2 + n3) as usize,
                            ),
                        ),
                    },
                },
            },
        }
    }
}

impl FrameHeader {
    /// A data frame header with no flags, on stream 0.
    pub fn data(channel_id: u32, payload_len: u64) -> (h: Self)
        ensures
            h == (FrameHeader {
                frame_type: FrameType::Data,
                flags: FrameFlags { control: false, priority: false, encrypted: false },
                channel_id,
                stream_id: 0,
                payload_len,
            }),
    {
        Self {
            frame_type: FrameType::Data,
            flags: FrameFlags { control: false, priority: false, encrypted: false },
            channel_id,
            stream_id: 0,
            payload_len,
        }
    }

    /// A control frame header (ping, pong, close, ...): control flag set, channel,
    /// stream and payload length zero.
    pub fn control(frame_type: FrameType) -> (h: Self)
        ensures
            h == (FrameHeader {
                frame_type,
                flags: FrameFlags { control: true, priority: false, encrypted: false },
                channel_id: 0,
                stream_id: 0,
                payload_len: 0,
            }),
    {
        Self {
            frame_type,
            flags: FrameFlags { control: true, priority: false, encrypted: false },
            channel_id: 0,
            stream_id: 0,
            payload_len: 0,
        }
    }

    /// This header with the encrypted flag set.
    pub fn with_encrypted(self) -> (h: Self)
        ensures
            h == (FrameHeader { flags: FrameFlags { encrypted: true, ..self.flags }, ..self }),
    {
        let mut h = self;
        h.flags.encrypted = true;
        h
    }

    /// This header with the priority flag set.
    pub fn with_priority(self) -> (h: Self)
        ensures
            h == (FrameHeader { flags: FrameFlags { priority: true, ..self.flags }, ..self }),
    {
        let mut h = self;
        h.flags.priority = true;
        h
    }

    /// This header with the given stream id.
    pub fn with_stream(self, stream_id: u64) -> (h: Self)
        ensures
            h == (FrameHeader { stream_id, ..self }),
    {
        let mut h = self;
        h.stream_id = stream_id;
        h
    }

    /// The exact number of bytes this header occupies when encoded.
    pub fn encoded_len(&self) -> (n: usize)
        ensures
            n == spec_header_len(*self),
    {
        1 + varint::encoded_len(self.channel_id as u64) + varint::encoded_len(self.stream_id)
            + varint::encoded_len(self.payload_len)
    }

    /// Encode this header into `buf`; returns the number of bytes written.
    ///
    /// A buffer shorter than `encoded_len()` is refused before anything is written.
    /// A stream id or payload length above `VARINT_MAX` gives `InvalidVarInt`, after
    /// the fields before it have been written.
    #[verifier::rlimit(40)]
    pub fn encode(&self, buf: &mut [u8]) -> (r: Result<usize, WireError>)
        ensures
            r == spec_header_encode_result(*self, old(buf)@.len()),
            r is Ok ==> final(buf)@ == spec_header_bytes(*self) + old(buf)@.skip(
                spec_header_len(*self) as int,
            ),
            r is Err && self.stream_id > VARINT_MAX && old(buf)@.len() >= spec_header_len(*self)
                ==> final(buf)@ == seq![spec_first_byte(*self)] + spec_varint_bytes(
                self.channel_id as u64,
            ) + old(buf)@.skip(1 + spec_encoded_len(self.channel_id as u64) as int),
            r is Err && self.stream_id <= VARINT_MAX && old(buf)@.len() >= spec_header_len(*self)
                ==> final(buf)@ == seq![spec_first_byte(*self)] + spec_varint_bytes(
                self.channel_id as u64,
            ) + spec_varint_bytes(self.stream_id) + old(buf)@.skip(
                1 + spec_encoded_len(self.channel_id as u64) + spec_encoded_len(self.stream_id) as int,
            ),
            old(buf)@.len() < spec_header_len(*self) ==> final(buf)@ == old(buf)@,
            final(buf)@.len() == old(buf)@.len(),
    {
        let needed = self.encoded_len();
        if buf.len() < needed {
            return Err(WireError::BufferTooSmall { needed, available: buf.len() });
        }
        let ghost old_buf = buf@;
        let first = self.flags.to_bits() | (self.frame_type.code() & TYPE_MASK);
        buf[0] = first;
        let mut offset: usize = 1;
        let ghost after_first = buf@;
        assert(after_first =~= seq![spec_first_byte(*self)] + old_buf.skip(1));

        let n1 = match varint::encode_at(self.channel_id as u64, buf, offset) {
            Ok(n) => n,
            Err(e) => {
                return Err(e);
            },
        };
        offset = offset + n1;
        let ghost after_channel = buf@;
        assert(after_channel =~= seq![spec_first_byte(*self)] + spec_varint_bytes(
            self.channel_id as u64,
        ) + old_buf.skip(offset as int));

        let n2 = match varint::encode_at(self.stream_id, buf, offset) {
            Ok(n) => n,
            Err(e) => {
                return Err(e);
            },
        };
        offset = offset + n2;
        let ghost after_stream = buf@;
        assert(after_stream =~= seq![spec_first_byte(*self)] + spec_varint_bytes(
            self.channel_id as u64,
        ) + spec_varint_bytes(self.stream_id) + old_buf.skip(offset as int));

        let n3 = match varint::encode_at(self.payload_len, buf, offset) {
            Ok(n) => n,
            Err(e) => {
                return Err(e);
            },
        };
        offset = offset + n3;
        assert(buf@ =~= spec_header_bytes(*self) + old_buf.skip(offset as int));
        Ok(offset)
    }

    /// Decode a header from the start of `buf`; returns `(header, bytes_consumed)`.
    ///
    /// `Incomplete` reports how many bytes (from the start of `buf`) are needed at
    /// least; `UnknownFrameType` reports an unknown type nibble. A channel id that
    /// does not fit in 32 bits is truncated to its low 32 bits.
    pub fn decode(buf: &[u8]) -> (r: Result<(Self, usize), WireError>)
        ensures
            r == spec_header_decode(buf@),
    {
        if buf.len() == 0 {
            return Err(WireError::Incomplete { needed_min: 4, available: 0 });
        }
        let byte0 = buf[0];
        let mut offset: usize = 1;
        let flags = FrameFlags::from_bits(byte0);
        let frame_type = match FrameType::from_u8(byte0 & TYPE_MASK) {
            Ok(t) => t,
            Err(e) => {
                return Err(e);
            },
        };

        let (channel_raw, n1) = match varint::decode_at(buf, offset) {
            Ok(v) => v,
            Err(e) => {
                return Err(Self::relative_incomplete(e, offset, buf.len()));
            },
        };
        offset = offset + n1;

        let (stream_id, n2) = match varint::decode_at(buf, offset) {
            Ok(v) => v,
            Err(e) => {
                return Err(Self::relative_incomplete(e, offset, buf.len()));
            },
        };
        offset = offset + n2;

        let (payload_len, n3) = match varint::decode_at(buf, offset) {
            Ok(v) => v,
            Err(e) => {
                return Err(Self::relative_incomplete(e, offset, buf.len()));
            },
        };
        offset = offset + n3;

        Ok(
            (
                Self {
                    frame_type,
                    flags,
                    channel_id: channel_raw as u32,
                    stream_id,
                    payload_len,
                },
                offset,
            ),
        )
    }

    /// Rewrite an `Incomplete` error of a field that starts at `offset` so that it
    /// counts from the start of the buffer.
    fn relative_incomplete(e: WireError, offset: usize, total: usize) -> (r: WireError)
        requires
            offset <= 17,
            e is Incomplete ==> e->needed_min <= 8,
        ensures
            r == (match e {
                WireError::Incomplete { needed_min, available: _ } => WireError::Incomplete {
                    needed_min: (offset + needed_min) as usize,
                    available: total,
                },
                other => other,
            }),
    {
        match e {
            WireError::Incomplete { needed_min, .. } => WireError::Incomplete {
                needed_min: offset + needed_min,
                available: total,
            },
            other => other,
        }
    }
}


/// The text of a flag: its letter when set, nothing otherwise.
pub open spec fn spec_flag_text(set: bool, letter: Seq<char>) -> Seq<char> {
    if set {
        letter
    } else {
        Seq::empty()
    }
}

/// The human-readable text of a header, such as `[DATA] ch=5 stream=0 len=42 flags=[E]`.
pub open spec fn spec_header_text(h: FrameHeader) -> Seq<char> {
    "["@ + spec_frame_type_name(h.frame_type) + "] ch="@ + spec_decimal(h.channel_id as nat)
        + " stream="@ + spec_decimal(h.stream_id as nat) + " len="@ + spec_decimal(
        h.payload_len as nat,
    ) + " flags=["@ + spec_flag_text(h.flags.control, "C"@) + spec_flag_text(
        h.flags.priority,
        "P"@,
    ) + spec_flag_text(h.flags.encrypted, "E"@) + "]"@
}

impl FrameHeader {
    /// The human-readable text of this header.
    pub fn to_display_string(&self) -> (s: String)
        ensures
            s@ == spec_header_text(*self),
    {
        let mut s = String::new();
        push_str(&mut s, "[");
        self.frame_type.push_name(&mut s);
        push_str(&mut s, "] ch=");
        push_decimal(&mut s, self.channel_id as u64);
        push_str(&mut s, " stream=");
        push_decimal(&mut s, self.stream_id);
        push_str(&mut s, " len=");
        push_decimal(&mut s, self.payload_len);
        push_str(&mut s, " flags=[");
        let ghost before = s@;
        if self.flags.control {
            push_str(&mut s, "C");
        }
        assert(s@ == before + spec_flag_text(self.flags.control, "C"@));
        let ghost before = s@;
        if self.flags.priority {
            push_str(&mut s, "P");
        }
        assert(s@ == before + spec_flag_text(self.flags.priority, "P"@));
        let ghost before = s@;
        if self.flags.encrypted {
            push_str(&mut s, "E");
        }
        assert(s@ == before + spec_flag_text(self.flags.encrypted, "E"@));
        push_str(&mut s, "]");
        s
    }
}

/// Byte 0 of an encoded header gives back its flags and its frame type code.
pub proof fn lemma_first_byte_fields(h: FrameHeader)
    ensures
        spec_first_byte(h) & TYPE_MASK == spec_frame_type_code(h.frame_type),
        spec_flags_from_byte(spec_first_byte(h)) == h.flags,
{
    lemma_frame_type_code_roundtrip(h.frame_type);
    let code = spec_frame_type_code(h.frame_type);
    let c = h.flags.control;
    let p = h.flags.priority;
    let e = h.flags.encrypted;
    let b = spec_first_byte(h);
    assert(b == ((if c { 0x80u8 } else { 0u8 }) | (if p { 0x40u8 } else { 0u8 }) | (if e {
        0x20u8
    } else {
        0u8
    })) | (code & 0x0Fu8));
    assert(b & 0x0Fu8 == code && ((b & 0x80u8) != 0) == c && ((b & 0x40u8) != 0) == p && ((b
        & 0x20u8) != 0) == e) by (bit_vector)
        requires
            code < 16,
            b == ((if c { 0x80u8 } else { 0u8 }) | (if p { 0x40u8 } else { 0u8 }) | (if e {
                0x20u8
            } else {
                0u8
            })) | (code & 0x0Fu8),
    ;
}

/// Decoding the encoding of a header whose fields can all be encoded, whatever
/// follows it, gives back the header and the length of its encoding.
#[verifier::rlimit(40)]
pub proof fn lemma_header_roundtrip(h: FrameHeader, rest: Seq<u8>)
    requires
        spec_header_encodable(h),
    ensures
        spec_header_bytes(h).len() == spec_header_len(h),
        spec_header_decode(spec_header_bytes(h) + rest) == Ok::<(FrameHeader, usize), WireError>(
            (h, spec_header_len(h) as usize),
        ),
{
    let ch = h.channel_id as u64;
    let vc = spec_varint_bytes(ch);
    let vs = spec_varint_bytes(h.stream_id);
    let vp = spec_varint_bytes(h.payload_len);
    let s = spec_header_bytes(h) + rest;
    lemma_decode_encode(ch, vs + vp + rest);
    lemma_decode_encode(h.stream_id, vp + rest);
    lemma_decode_encode(h.payload_len, rest);
    lemma_first_byte_fields(h);
    lemma_frame_type_code_roundtrip(h.frame_type);
    let n1 = vc.len() as int;
    let n2 = vs.len() as int;
    assert(s.skip(1) =~= vc + (vs + vp + rest));
    assert(s.skip(1 + n1) =~= vs + (vp + rest));
    assert(s.skip(1 + n1 + n2) =~= vp + rest);
    assert(s[0] == spec_first_byte(h));
    assert((ch as u32) == h.channel_id);
}

/// A decoded header consumed between 4 and 25 bytes of its input, and a decode
/// error is never `InvalidVarInt` or `BufferTooSmall`.
pub proof fn lemma_header_decode_len(s: Seq<u8>)
    ensures
        spec_header_decode(s) is Ok ==> 4 <= spec_header_decode(s)->Ok_0.1 <= 25
            && spec_header_decode(s)->Ok_0.1 <= s.len(),
{
}

/// The encoded length of a header lies between 4 and 25 bytes.
pub proof fn lemma_header_len_bounds(h: FrameHeader)
    ensures
        4 <= spec_header_len(h) <= 25,
{
}

/// The first byte of an encoded header carries the control flag in bit 7, the
/// priority flag in bit 6, the encrypted flag in bit 5, a clear bit 4, and the
/// frame type code in bits 0 to 3.
pub proof fn lemma_first_byte_layout(h: FrameHeader)
    ensures
        ({
            let b = spec_header_bytes(h)[0];
            &&& (b & 0x80 != 0) == h.flags.control
            &&& (b & 0x40 != 0) == h.flags.priority
            &&& (b & 0x20 != 0) == h.flags.encrypted
            &&& b & 0x10 == 0
            &&& b & 0x0F == spec_frame_type_code(h.frame_type)
        }),
{
    lemma_frame_type_code_roundtrip(h.frame_type);
    let code = spec_frame_type_code(h.frame_type);
    let c = h.flags.control;
    let p = h.flags.priority;
    let e = h.flags.encrypted;
    let b = spec_header_bytes(h)[0];
    assert(b == spec_first_byte(h));
    assert(b == ((if c { FLAG_CONTROL } else { 0u8 }) | (if p { FLAG_PRIORITY } else { 0u8 })
        | (if e { FLAG_ENCRYPTED } else { 0u8 })) | (code & TYPE_MASK));
    let fc = FLAG_CONTROL;
    let fp = FLAG_PRIORITY;
    let fe = FLAG_ENCRYPTED;
    let tm = TYPE_MASK;
    assert(fc == 0x80u8 && fp == 0x40u8 && fe == 0x20u8 && tm == 0x0Fu8);
    assert((b & 0x80u8 != 0) == c && (b & 0x40u8 != 0) == p && (b & 0x20u8 != 0) == e && b
        & 0x10u8 == 0 && b & 0x0Fu8 == code) by (bit_vector)
        requires
            code < 16,
            fc == 0x80u8,
            fp == 0x40u8,
            fe == 0x20u8,
            tm == 0x0Fu8,
            b == ((if c { fc } else { 0u8 }) | (if p { fp } else { 0u8 }) | (if e {
                fe
            } else {
                0u8
            })) | (code & tm),
    ;
}

/// A decoded header takes its flags from the first byte: control from bit 7,
/// priority from bit 6, encrypted from bit 5.
pub proof fn lemma_decoded_flags(s: Seq<u8>)
    ensures
        spec_header_decode(s) is Ok ==> spec_header_decode(s)->Ok_0.0.flags == (FrameFlags {
            control: s[0] & 0x80 != 0,
            priority: s[0] & 0x40 != 0,
            encrypted: s[0] & 0x20 != 0,
        }),
{
}

} // verus!
