//! QUIC-style variable-length integers (RFC 9000, section 16).
//!
//! The two most significant bits of the first byte give the length of the
//! encoding (1, 2, 4 or 8 bytes), leaving 6, 14, 30 or 62 bits for the value,
//! stored big-endian.

use vstd::prelude::*;
use crate::wire::error::WireError;

verus! {

/// Maximum value encodable in a variable-length integer (2^62 - 1).
pub const VARINT_MAX: u64 = 0x3FFF_FFFF_FFFF_FFFF;

/// Number of bytes of the shortest encoding of `value`.
pub open spec fn spec_encoded_len(value: u64) -> nat {
    if value <= 63 {
        1
    } else if value <= 16_383 {
        2
    } else if value <= 1_073_741_823 {
        4
    } else {
        8
    }
}

/// Length of an encoding, as announced by the two-bit prefix of its first byte.
pub open spec fn spec_prefix_len(first: u8) -> nat {
    let prefix = first >> 6u8;
    if prefix == 0 {
        1
    } else if prefix == 1 {
        2
    } else if prefix == 2 {
        4
    } else {
        8
    }
}

/// The bytes of the shortest encoding of `value` (meaningful for `value <= VARINT_MAX`).
pub open spec fn spec_varint_bytes(value: u64) -> Seq<u8> {
    if value <= 63 {
        seq![value as u8]
    } else if value <= 16_383 {
        seq![((value >> 8u64) | 0x40) as u8, (value & 0xff) as u8]
    } else if value <= 1_073_741_823 {
        seq![
            ((value >> 24u64) | 0x80) as u8,
            ((value >> 16u64) & 0xff) as u8,
            ((value >> 8u64) & 0xff) as u8,
            (value & 0xff) as u8,
        ]
    } else {
        seq![
            ((value >> 56u64) | 0xC0) as u8,
            ((value >> 48u64) & 0xff) as u8,
            ((value >> 40u64) & 0xff) as u8,
            ((value >> 32u64) & 0xff) as u8,
            ((value >> 24u64) & 0xff) as u8,
            ((value >> 16u64) & 0xff) as u8,
            ((value >> 8u64) & 0xff) as u8,
            (value & 0xff) as u8,
        ]
    }
}

/// The value carried by the encoding at the start of `s`, read big-endian with the
/// two prefix bits cleared (meaningful when `s` holds the whole encoding).
pub open spec fn spec_varint_value(s: Seq<u8>) -> u64 {
    let b0 = (s[0] & 0x3F) as u64;
    let n = spec_prefix_len(s[0]);
    if n == 1 {
        b0
    } else if n == 2 {
        (b0 << 8u64) | (s[1] as u64)
    } else if n == 4 {
        (b0 << 24u64) | ((s[1] as u64) << 16u64) | ((s[2] as u64) << 8u64) | (s[3] as u64)
    } else {
        (b0 << 56u64) | ((s[1] as u64) << 48u64) | ((s[2] as u64) << 40u64) | ((s[3] as u64)
            << 32u64) | ((s[4] as u64) << 24u64) | ((s[5] as u64) << 16u64) | ((s[6] as u64)
            << 8u64) | (s[7] as u64)
    }
}

/// What encoding `value` into a buffer of `available` bytes returns.
pub open spec fn spec_encode_result(value: u64, available: nat) -> Result<usize, WireError> {
    if value > VARINT_MAX {
        Err(WireError::InvalidVarInt)
    } else if available < spec_encoded_len(value) {
        Err(
            WireError::BufferTooSmall {
                needed: spec_encoded_len(value) as usize,
                available: available as usize,
            },
        )
    } else {
        Ok(spec_encoded_len(value) as usize)
    }
}

/// What decoding the start of `s` returns: the value and the bytes consumed.
pub open spec fn spec_decode(s: Seq<u8>) -> Result<(u64, usize), WireError> {
    if s.len() == 0 {
        Err(WireError::Incomplete { needed_min: 1, available: 0 })
    } else if s.len() < spec_prefix_len(s[0]) {
        Err(
            WireError::Incomplete {
                needed_min: spec_prefix_len(s[0]) as usize,
                available: s.len() as usize,
            },
        )
    } else {
        Ok((spec_varint_value(s), spec_prefix_len(s[0]) as usize))
    }
}

/// Encode `value` into `buf` starting at `offset`; the bytes before `offset` and
/// after the encoding stay as they were.
pub(crate) fn encode_at(value: u64, buf: &mut [u8], offset: usize) -> (r: Result<usize, WireError>)
    requires
        offset <= old(buf)@.len(),
    ensures
        r == spec_encode_result(value, (old(buf)@.len() - offset) as nat),
        r is Ok ==> final(buf)@ == old(buf)@.take(offset as int) + spec_varint_bytes(value)
            + old(buf)@.skip(offset + spec_encoded_len(value)),
        r is Err ==> final(buf)@ == old(buf)@,
{
    if value > VARINT_MAX {
        return Err(WireError::InvalidVarInt);
    }
    let available = buf.len() - offset;
    let ghost old_buf = buf@;
    if value <= 63 {
        if available == 0 {
            return Err(WireError::BufferTooSmall { needed: 1, available: 0 });
        }
        buf[offset] = value as u8;
        assert(buf@ =~= old_buf.take(offset as int) + spec_varint_bytes(value) + old_buf.skip(
            offset + 1,
        ));
        Ok(1)
    } else if value <= 16_383 {
        if available < 2 {
            return Err(WireError::BufferTooSmall { needed: 2, available });
        }
        let v: u16 = (value as u16) | 0x4000;
        proof {
            lemma_two_byte_form(value);
        }
        buf[offset] = (v >> 8u16) as u8;
        buf[offset + 1] = v as u8;
        assert(buf@ =~= old_buf.take(offset as int) + spec_varint_bytes(value) + old_buf.skip(
            offset + 2,
        ));
        Ok(2)
    } else if value <= 1_073_741_823 {
        if available < 4 {
            return Err(WireError::BufferTooSmall { needed: 4, available });
        }
        let v: u32 = (value as u32) | 0x8000_0000;
        proof {
            lemma_four_byte_form(value);
        }
        buf[offset] = (v >> 24u32) as u8;
        buf[offset + 1] = (v >> 16u32) as u8;
        buf[offset + 2] = (v >> 8u32) as u8;
        buf[offset + 3] = v as u8;
        assert(buf@ =~= old_buf.take(offset as int) + spec_varint_bytes(value) + old_buf.skip(
            offset + 4,
        ));
        Ok(4)
    } else {
        if available < 8 {
            return Err(WireError::BufferTooSmall { needed: 8, available });
        }
        let v: u64 = value | 0xC000_0000_0000_0000;
        proof {
            lemma_eight_byte_form(value);
        }
        buf[offset] = (v >> 56u64) as u8;
        buf[offset + 1] = (v >> 48u64) as u8;
        buf[offset + 2] = (v >> 40u64) as u8;
        buf[offset + 3] = (v >> 32u64) as u8;
        buf[offset + 4] = (v >> 24u64) as u8;
        buf[offset + 5] = (v >> 16u64) as u8;
        buf[offset + 6] = (v >> 8u64) as u8;
        buf[offset + 7] = v as u8;
        assert(buf@ =~= old_buf.take(offset as int) + spec_varint_bytes(value) + old_buf.skip(
            offset + 8,
        ));
        Ok(8)
    }
}

proof fn lemma_two_byte_form(value: u64)
    requires
        63 < value <= 16_383,
    ensures
        ((((value as u16) | 0x4000u16) >> 8u16) as u8) == (((value >> 8u64) | 0x40) as u8),
        ((((value as u16) | 0x4000u16)) as u8) == ((value & 0xff) as u8),
{
    assert(((((value as u16) | 0x4000u16) >> 8u16) as u8) == (((value >> 8u64) | 0x40) as u8))
        by (bit_vector)
        requires
            value <= 16_383,
    ;
    assert(((((value as u16) | 0x4000u16)) as u8) == ((value & 0xff) as u8)) by (bit_vector);
}

proof fn lemma_four_byte_form(value: u64)
    requires
        16_383 < value <= 1_073_741_823,
    ensures
        ((((value as u32) | 0x8000_0000u32) >> 24u32) as u8) == (((value >> 24u64) | 0x80) as u8),
        ((((value as u32) | 0x8000_0000u32) >> 16u32) as u8) == (((value >> 16u64) & 0xff) as u8),
        ((((value as u32) | 0x8000_0000u32) >> 8u32) as u8) == (((value >> 8u64) & 0xff) as u8),
        ((((value as u32) | 0x8000_0000u32)) as u8) == ((value & 0xff) as u8),
{
    assert(((((value as u32) | 0x8000_0000u32) >> 24u32) as u8) == (((value >> 24u64) | 0x80)
        as u8)) by (bit_vector)
        requires
            value <= 1_073_741_823,
    ;
    assert(((((value as u32) | 0x8000_0000u32) >> 16u32) as u8) == (((value >> 16u64) & 0xff)
        as u8)) by (bit_vector);
    assert(((((value as u32) | 0x8000_0000u32) >> 8u32) as u8) == (((value >> 8u64) & 0xff)
        as u8)) by (bit_vector);
    assert(((((value as u32) | 0x8000_0000u32)) as u8) == ((value & 0xff) as u8)) by (bit_vector);
}

proof fn lemma_eight_byte_form(value: u64)
    requires
        1_073_741_823 < value <= VARINT_MAX,
    ensures
        (((value | 0xC000_0000_0000_0000u64) >> 56u64) as u8) == (((value >> 56u64) | 0xC0) as u8),
        (((value | 0xC000_0000_0000_0000u64) >> 48u64) as u8) == (((value >> 48u64) & 0xff) as u8),
        (((value | 0xC000_0000_0000_0000u64) >> 40u64) as u8) == (((value >> 40u64) & 0xff) as u8),
        (((value | 0xC000_0000_0000_0000u64) >> 32u64) as u8) == (((value >> 32u64) & 0xff) as u8),
        (((value | 0xC000_0000_0000_0000u64) >> 24u64) as u8) == (((value >> 24u64) & 0xff) as u8),
        (((value | 0xC000_0000_0000_0000u64) >> 16u64) as u8) == (((value >> 16u64) & 0xff) as u8),
        (((value | 0xC000_0000_0000_0000u64) >> 8u64) as u8) == (((value >> 8u64) & 0xff) as u8),
        ((value | 0xC000_0000_0000_0000u64) as u8) == ((value & 0xff) as u8),
{
    assert((((value | 0xC000_0000_0000_0000u64) >> 56u64) as u8) == (((value >> 56u64) | 0xC0)
        as u8)) by (bit_vector);
    assert((((value | 0xC000_0000_0000_0000u64) >> 48u64) as u8) == (((value >> 48u64) & 0xff)
        as u8)) by (bit_vector);
    assert((((value | 0xC000_0000_0000_0000u64) >> 40u64) as u8) == (((value >> 40u64) & 0xff)
        as u8)) by (bit_vector);
    assert((((value | 0xC000_0000_0000_0000u64) >> 32u64) as u8) == (((value >> 32u64) & 0xff)
        as u8)) by (bit_vector);
    assert((((value | 0xC000_0000_0000_0000u64) >> 24u64) as u8) == (((value >> 24u64) & 0xff)
        as u8)) by (bit_vector);
    assert((((value | 0xC000_0000_0000_0000u64) >> 16u64) as u8) == (((value >> 16u64) & 0xff)
        as u8)) by (bit_vector);
    assert((((value | 0xC000_0000_0000_0000u64) >> 8u64) as u8) == (((value >> 8u64) & 0xff)
        as u8)) by (bit_vector);
    assert(((value | 0xC000_0000_0000_0000u64) as u8) == ((value & 0xff) as u8)) by (bit_vector);
}


/// Encode `value` as a variable-length integer into `buf`.
///
/// Returns the number of bytes written: `InvalidVarInt` when `value` exceeds
/// `VARINT_MAX`, `BufferTooSmall` when `buf` cannot hold the encoding.
pub fn encode(value: u64, buf: &mut [u8]) -> (r: Result<usize, WireError>)
    ensures
        r == spec_encode_result(value, old(buf)@.len()),
        r is Ok ==> final(buf)@ == spec_varint_bytes(value) + old(buf)@.skip(
            spec_encoded_len(value) as int,
        ),
        r is Err ==> final(buf)@ == old(buf)@,
{
    let r = encode_at(value, buf, 0);
    proof {
        if r is Ok {
            assert(old(buf)@.take(0) + spec_varint_bytes(value) =~= spec_varint_bytes(value));
        }
    }
    r
}

/// Decode the variable-length integer that starts at `offset` in `buf`.
pub(crate) fn decode_at(buf: &[u8], offset: usize) -> (r: Result<(u64, usize), WireError>)
    requires
        offset <= buf@.len(),
    ensures
        r == spec_decode(buf@.skip(offset as int)),
{
    let ghost s = buf@.skip(offset as int);
    if offset == buf.len() {
        return Err(WireError::Incomplete { needed_min: 1, available: 0 });
    }
    let first = buf[offset];
    assert(s[0] == first);
    let prefix = first >> 6u8;
    let len: usize = if prefix == 0 {
        1
    } else if prefix == 1 {
        2
    } else if prefix == 2 {
        4
    } else {
        8
    };
    let available = buf.len() - offset;
    if available < len {
        return Err(WireError::Incomplete { needed_min: len, available });
    }
    let b0 = (first & 0x3F) as u64;
    let value: u64 = if len == 1 {
        b0
    } else if len == 2 {
        (b0 << 8u64) | (buf[offset + 1] as u64)
    } else if len == 4 {
        (b0 << 24u64) | ((buf[offset + 1] as u64) << 16u64) | ((buf[offset + 2] as u64) << 8u64)
            | (buf[offset + 3] as u64)
    } else {
        (b0 << 56u64) | ((buf[offset + 1] as u64) << 48u64) | ((buf[offset + 2] as u64) << 40u64)
            | ((buf[offset + 3] as u64) << 32u64) | ((buf[offset + 4] as u64) << 24u64) | ((buf[offset
            + 5] as u64) << 16u64) | ((buf[offset + 6] as u64) << 8u64) | (buf[offset + 7] as u64)
    };
    Ok((value, len))
}

/// Decode a variable-length integer from the start of `buf`.
///
/// Returns `(value, bytes_consumed)`, or `Incomplete` when `buf` is shorter than
/// the length announced by its first byte.
pub fn decode(buf: &[u8]) -> (r: Result<(u64, usize), WireError>)
    ensures
        r == spec_decode(buf@),
{
    assert(buf@.skip(0) =~= buf@);
    decode_at(buf, 0)
}

/// Number of bytes needed to encode `value`.
pub fn encoded_len(value: u64) -> (n: usize)
    ensures
        n == spec_encoded_len(value),
{
    if value <= 63 {
        1
    } else if value <= 16_383 {
        2
    } else if value <= 1_073_741_823 {
        4
    } else {
        8
    }
}

/// Decoding the encoding of any value up to `VARINT_MAX`, whatever follows it,
/// gives back the value and the length of its encoding.
pub proof fn lemma_decode_encode(value: u64, rest: Seq<u8>)
    requires
        value <= VARINT_MAX,
    ensures
        spec_varint_bytes(value).len() == spec_encoded_len(value),
        spec_decode(spec_varint_bytes(value) + rest) == Ok::<(u64, usize), WireError>(
            (value, spec_encoded_len(value) as usize),
        ),
{
    let s = spec_varint_bytes(value) + rest;
    if value <= 63 {
        assert(s[0] == value as u8);
        assert((value as u8) >> 6u8 == 0 && ((value as u8) & 0x3F) as u64 == value) by (bit_vector)
            requires
                value <= 63,
        ;
    } else if value <= 16_383 {
        let b0 = ((value >> 8u64) | 0x40) as u8;
        let b1 = (value & 0xff) as u8;
        assert(s[0] == b0 && s[1] == b1);
        assert(b0 >> 6u8 == 1 && ((((b0 & 0x3F) as u64) << 8u64) | (b1 as u64)) == value)
            by (bit_vector)
            requires
                63 < value <= 16_383,
                b0 == ((value >> 8u64) | 0x40) as u8,
                b1 == (value & 0xff) as u8,
        ;
    } else if value <= 1_073_741_823 {
        let b0 = ((value >> 24u64) | 0x80) as u8;
        let b1 = ((value >> 16u64) & 0xff) as u8;
        let b2 = ((value >> 8u64) & 0xff) as u8;
        let b3 = (value & 0xff) as u8;
        assert(s[0] == b0 && s[1] == b1 && s[2] == b2 && s[3] == b3);
        assert(b0 >> 6u8 == 2 && ((((b0 & 0x3F) as u64) << 24u64) | ((b1 as u64) << 16u64) | ((
        b2 as u64) << 8u64) | (b3 as u64)) == value) by (bit_vector)
            requires
                16_383 < value <= 1_073_741_823,
                b0 == ((value >> 24u64) | 0x80) as u8,
                b1 == ((value >> 16u64) & 0xff) as u8,
                b2 == ((value >> 8u64) & 0xff) as u8,
                b3 == (value & 0xff) as u8,
        ;
    } else {
        let b0 = ((value >> 56u64) | 0xC0) as u8;
        let b1 = ((value >> 48u64) & 0xff) as u8;
        let b2 = ((value >> 40u64) & 0xff) as u8;
        let b3 = ((value >> 32u64) & 0xff) as u8;
        let b4 = ((value >> 24u64) & 0xff) as u8;
        let b5 = ((value >> 16u64) & 0xff) as u8;
        let b6 = ((value >> 8u64) & 0xff) as u8;
        let b7 = (value & 0xff) as u8;
        assert(s[0] == b0 && s[1] == b1 && s[2] == b2 && s[3] == b3 && s[4] == b4 && s[5] == b5
            && s[6] == b6 && s[7] == b7);
        assert(b0 >> 6u8 == 3 && ((((b0 & 0x3F) as u64) << 56u64) | ((b1 as u64) << 48u64) | ((
        b2 as u64) << 40u64) | ((b3 as u64) << 32u64) | ((b4 as u64) << 24u64) | ((b5 as u64)
            << 16u64) | ((b6 as u64) << 8u64) | (b7 as u64)) == value) by (bit_vector)
            requires
                1_073_741_823 < value <= 0x3FFF_FFFF_FFFF_FFFFu64,
                b0 == ((value >> 56u64) | 0xC0) as u8,
                b1 == ((value >> 48u64) & 0xff) as u8,
                b2 == ((value >> 40u64) & 0xff) as u8,
                b3 == ((value >> 32u64) & 0xff) as u8,
                b4 == ((value >> 24u64) & 0xff) as u8,
                b5 == ((value >> 16u64) & 0xff) as u8,
                b6 == ((value >> 8u64) & 0xff) as u8,
                b7 == (value & 0xff) as u8,
        ;
    }
}

/// Every successful decode yields a value up to `VARINT_MAX` whose shortest encoding
/// is no longer than the bytes consumed; when the lengths agree, encoding the value
/// gives back exactly the bytes that were consumed.
pub proof fn lemma_encode_decode(s: Seq<u8>)
    requires
        spec_decode(s) is Ok,
    ensures
        ({
            let (value, n) = spec_decode(s)->Ok_0;
            &&& value <= VARINT_MAX
            &&& spec_encoded_len(value) <= n
            &&& spec_encoded_len(value) == n ==> spec_varint_bytes(value) == s.take(n as int)
        }),
{
    let (value, n) = spec_decode(s)->Ok_0;
    let b0 = s[0];
    if n == 1 {
        assert(b0 >> 6u8 == 0 ==> ((b0 & 0x3F) as u64) <= 63 && ((b0 & 0x3F) as u64) as u8 == b0)
            by (bit_vector);
        assert(spec_varint_bytes(value) =~= s.take(1));
    } else if n == 2 {
        let b1 = s[1];
        let v = (((b0 & 0x3F) as u64) << 8u64) | (b1 as u64);
        assert(v == value);
        assert(b0 >> 6u8 == 1 ==> v <= 16_383 && (v > 63 ==> ((v >> 8u64) | 0x40) as u8 == b0
            && (v & 0xff) as u8 == b1)) by (bit_vector)
            requires
                v == (((b0 & 0x3F) as u64) << 8u64) | (b1 as u64),
        ;
        if spec_encoded_len(value) == n {
            assert(spec_varint_bytes(value) =~= s.take(2));
        }
    } else if n == 4 {
        let b1 = s[1];
        let b2 = s[2];
        let b3 = s[3];
        let v = (((b0 & 0x3F) as u64) << 24u64) | ((b1 as u64) << 16u64) | ((b2 as u64) << 8u64)
            | (b3 as u64);
        assert(v == value);
        assert(b0 >> 6u8 == 2 ==> v <= 1_073_741_823 && (v > 16_383 ==> ((v >> 24u64) | 0x80) as u8
            == b0 && ((v >> 16u64) & 0xff) as u8 == b1 && ((v >> 8u64) & 0xff) as u8 == b2 && (v
            & 0xff) as u8 == b3)) by (bit_vector)
            requires
                v == (((b0 & 0x3F) as u64) << 24u64) | ((b1 as u64) << 16u64) | ((b2 as u64)
                    << 8u64) | (b3 as u64),
        ;
        if spec_encoded_len(value) == n {
            assert(spec_varint_bytes(value) =~= s.take(4));
        }
    } else {
        let b1 = s[1];
        let b2 = s[2];
        let b3 = s[3];
        let b4 = s[4];
        let b5 = s[5];
        let b6 = s[6];
        let b7 = s[7];
        let v = (((b0 & 0x3F) as u64) << 56u64) | ((b1 as u64) << 48u64) | ((b2 as u64) << 40u64)
            | ((b3 as u64) << 32u64) | ((b4 as u64) << 24u64) | ((b5 as u64) << 16u64) | ((
        b6 as u64) << 8u64) | (b7 as u64);
        assert(v == value);
        assert(v <= 0x3FFF_FFFF_FFFF_FFFFu64 && (b0 >> 6u8 == 3 && v > 1_073_741_823 ==> ((v
            >> 56u64) | 0xC0) as u8 == b0 && ((v >> 48u64) & 0xff) as u8 == b1 && ((v >> 40u64)
            & 0xff) as u8 == b2 && ((v >> 32u64) & 0xff) as u8 == b3 && ((v >> 24u64) & 0xff) as u8
            == b4 && ((v >> 16u64) & 0xff) as u8 == b5 && ((v >> 8u64) & 0xff) as u8 == b6 && (v
            & 0xff) as u8 == b7)) by (bit_vector)
            requires
                v == (((b0 & 0x3F) as u64) << 56u64) | ((b1 as u64) << 48u64) | ((b2 as u64)
                    << 40u64) | ((b3 as u64) << 32u64) | ((b4 as u64) << 24u64) | ((b5 as u64)
                    << 16u64) | ((b6 as u64) << 8u64) | (b7 as u64),
        ;
        assert(b0 >> 6u8 == 3) by (bit_vector)
            requires
                !(b0 >> 6u8 == 0),
                !(b0 >> 6u8 == 1),
                !(b0 >> 6u8 == 2),
        ;
        if spec_encoded_len(value) == n {
            assert(spec_varint_bytes(value) =~= s.take(8));
        }
    }
}

/// The encoding of a value is the big-endian number that has the value in its
/// low bits and the length tag (0, 1, 2 or 3 for 1, 2, 4 or 8 bytes) in its top
/// two bits, using the fewest bytes whose value bits can hold the value.
pub proof fn lemma_varint_big_endian(value: u64)
    requires
        value <= VARINT_MAX,
    ensures
        ({
            let b = spec_varint_bytes(value);
            &&& value < 64 ==> b.len() == 1 && b[0] == value
            &&& 64 <= value < 16_384 ==> b.len() == 2 && b[0] * 0x100 + b[1] == 0x4000 + value
            &&& 16_384 <= value < 0x4000_0000 ==> b.len() == 4 && b[0] * 0x100_0000 + b[1]
                * 0x1_0000 + b[2] * 0x100 + b[3] == 0x8000_0000 + value
            &&& 0x4000_0000 <= value ==> b.len() == 8 && b[0] * 0x100_0000_0000_0000 + b[1]
                * 0x1_0000_0000_0000 + b[2] * 0x100_0000_0000 + b[3] * 0x1_0000_0000 + b[4]
                * 0x100_0000 + b[5] * 0x1_0000 + b[6] * 0x100 + b[7] == 0xC000_0000_0000_0000
                + value
        }),
{
    let b = spec_varint_bytes(value);
    if value <= 63 {
        assert(b[0] == value as u8);
    } else if value <= 16_383 {
        let b0 = ((value >> 8u64) | 0x40) as u8;
        let b1 = (value & 0xff) as u8;
        assert(b[0] == b0 && b[1] == b1);
        assert((b0 as u64) * 0x100 + (b1 as u64) == 0x4000 + value) by (bit_vector)
            requires
                63 < value <= 16_383,
                b0 == ((value >> 8u64) | 0x40) as u8,
                b1 == (value & 0xff) as u8,
        ;
    } else if value <= 1_073_741_823 {
        let b0 = ((value >> 24u64) | 0x80) as u8;
        let b1 = ((value >> 16u64) & 0xff) as u8;
        let b2 = ((value >> 8u64) & 0xff) as u8;
        let b3 = (value & 0xff) as u8;
        assert(b[0] == b0 && b[1] == b1 && b[2] == b2 && b[3] == b3);
        assert((b0 as u64) * 0x100_0000 + (b1 as u64) * 0x1_0000 + (b2 as u64) * 0x100 + (b3
            as u64) == 0x8000_0000 + value) by (bit_vector)
            requires
                16_383 < value <= 1_073_741_823,
                b0 == ((value >> 24u64) | 0x80) as u8,
                b1 == ((value >> 16u64) & 0xff) as u8,
                b2 == ((value >> 8u64) & 0xff) as u8,
                b3 == (value & 0xff) as u8,
        ;
    } else {
        let b0 = ((value >> 56u64) | 0xC0) as u8;
        let b1 = ((value >> 48u64) & 0xff) as u8;
        let b2 = ((value >> 40u64) & 0xff) as u8;
        let b3 = ((value >> 32u64) & 0xff) as u8;
        let b4 = ((value >> 24u64) & 0xff) as u8;
        let b5 = ((value >> 16u64) & 0xff) as u8;
        let b6 = ((value >> 8u64) & 0xff) as u8;
        let b7 = (value & 0xff) as u8;
        assert(b[0] == b0 && b[1] == b1 && b[2] == b2 && b[3] == b3 && b[4] == b4 && b[5] == b5
            && b[6] == b6 && b[7] == b7);
        assert((b0 as u64) * 0x100_0000_0000_0000 + (b1 as u64) * 0x1_0000_0000_0000 + (b2
            as u64) * 0x100_0000_0000 + (b3 as u64) * 0x1_0000_0000 + (b4 as u64) * 0x100_0000 + (
        b5 as u64) * 0x1_0000 + (b6 as u64) * 0x100 + (b7 as u64) == 0xC000_0000_0000_0000u64
            + value) by (bit_vector)
            requires
                1_073_741_823 < value <= 0x3FFF_FFFF_FFFF_FFFFu64,
                b0 == ((value >> 56u64) | 0xC0) as u8,
                b1 == ((value >> 48u64) & 0xff) as u8,
                b2 == ((value >> 40u64) & 0xff) as u8,
                b3 == ((value >> 32u64) & 0xff) as u8,
                b4 == ((value >> 24u64) & 0xff) as u8,
                b5 == ((value >> 16u64) & 0xff) as u8,
                b6 == ((value >> 8u64) & 0xff) as u8,
                b7 == (value & 0xff) as u8,
        ;
    }
}

/// Decoding reads the length from the top two bits of the first byte (1, 2, 4
/// or 8 bytes) and the value as the big-endian number of those bytes without
/// those two bits.
pub proof fn lemma_varint_decode_big_endian(s: Seq<u8>)
    requires
        s.len() >= 1,
    ensures
        s[0] < 64 ==> spec_decode(s) == Ok::<(u64, usize), WireError>((s[0] as u64, 1)),
        64 <= s[0] < 128 && s.len() >= 2 ==> spec_decode(s) is Ok && spec_decode(s)->Ok_0.1 == 2
            && spec_decode(s)->Ok_0.0 + 0x4000 == s[0] * 0x100 + s[1],
        128 <= s[0] < 192 && s.len() >= 4 ==> spec_decode(s) is Ok && spec_decode(s)->Ok_0.1 == 4
            && spec_decode(s)->Ok_0.0 + 0x8000_0000 == s[0] * 0x100_0000 + s[1] * 0x1_0000 + s[2]
            * 0x100 + s[3],
        192 <= s[0] && s.len() >= 8 ==> spec_decode(s) is Ok && spec_decode(s)->Ok_0.1 == 8
            && spec_decode(s)->Ok_0.0 + 0xC000_0000_0000_0000 == s[0] * 0x100_0000_0000_0000 + s[1]
            * 0x1_0000_0000_0000 + s[2] * 0x100_0000_0000 + s[3] * 0x1_0000_0000 + s[4]
            * 0x100_0000 + s[5] * 0x1_0000 + s[6] * 0x100 + s[7],
{
    let b0 = s[0];
    assert(b0 < 64 ==> b0 >> 6u8 == 0 && (b0 & 0x3F) == b0) by (bit_vector);
    assert(64 <= b0 < 128 ==> b0 >> 6u8 == 1) by (bit_vector);
    assert(128 <= b0 < 192 ==> b0 >> 6u8 == 2) by (bit_vector);
    assert(192 <= b0 ==> b0 >> 6u8 == 3) by (bit_vector);
    if 64 <= b0 < 128 && s.len() >= 2 {
        let b1 = s[1];
        assert(((((b0 & 0x3F) as u64) << 8u64) | (b1 as u64)) + 0x4000 == (b0 as u64) * 0x100 + (
        b1 as u64)) by (bit_vector)
            requires
                64 <= b0 < 128,
        ;
    }
    if 128 <= b0 < 192 && s.len() >= 4 {
        let b1 = s[1];
        let b2 = s[2];
        let b3 = s[3];
        assert(((((b0 & 0x3F) as u64) << 24u64) | ((b1 as u64) << 16u64) | ((b2 as u64) << 8u64)
            | (b3 as u64)) + 0x8000_0000 == (b0 as u64) * 0x100_0000 + (b1 as u64) * 0x1_0000 + (
        b2 as u64) * 0x100 + (b3 as u64)) by (bit_vector)
            requires
                128 <= b0 < 192,
        ;
    }
    if 192 <= b0 && s.len() >= 8 {
        let b1 = s[1];
        let b2 = s[2];
        let b3 = s[3];
        let b4 = s[4];
        let b5 = s[5];
        let b6 = s[6];
        let b7 = s[7];
        assert(((((b0 & 0x3F) as u64) << 56u64) | ((b1 as u64) << 48u64) | ((b2 as u64) << 40u64)
            | ((b3 as u64) << 32u64) | ((b4 as u64) << 24u64) | ((b5 as u64) << 16u64) | ((b6
            as u64) << 8u64) | (b7 as u64)) + 0xC000_0000_0000_0000u64 == (b0 as u64)
            * 0x100_0000_0000_0000 + (b1 as u64) * 0x1_0000_0000_0000 + (b2 as u64)
            * 0x100_0000_0000 + (b3 as u64) * 0x1_0000_0000 + (b4 as u64) * 0x100_0000 + (b5
            as u64) * 0x1_0000 + (b6 as u64) * 0x100 + (b7 as u64)) by (bit_vector)
            requires
                192 <= b0,
        ;
    }
}

} // verus!
