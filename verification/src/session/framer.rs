//! Frame reassembly and frame encoding.
//!
//! The framer accumulates the bytes read from a transport and cuts complete
//! frames (header and payload) out of them. The reading itself is I/O and is
//! done by the caller, which hands the bytes over with `push_bytes` and asks
//! for the next frame with `poll_frame`.

use vstd::prelude::*;
use crate::wire::error::{WireError, spec_wire_error_text};
use crate::wire::header::{FrameHeader, spec_header_decode, spec_header_bytes, spec_header_len,
    spec_header_encodable, lemma_header_roundtrip};
use crate::transport::{TransportError, spec_transport_error_text};
use crate::text::push_str;

verus! {

/// Default maximum frame payload size (10 MiB).
pub const DEFAULT_MAX_FRAME_SIZE: u64 = 10 * 1024 * 1024;

/// Initial capacity of the read buffer.
pub const READ_BUFFER_CAPACITY: usize = 65536;

#[verifier::external_type_specification]
#[verifier::external_body]
pub struct ExBytesMut(bytes::BytesMut);

/// The bytes held by a `BytesMut` buffer.
pub uninterp spec fn spec_bytes_mut_contents(buf: bytes::BytesMut) -> Seq<u8>;

/// `BytesMut::with_capacity(capacity)`: an empty buffer.
#[verifier::external_body]
fn bytes_mut_with_capacity(capacity: usize) -> (b: bytes::BytesMut)
    ensures
        spec_bytes_mut_contents(b) == Seq::<u8>::empty(),
{
    bytes::BytesMut::with_capacity(capacity)
}

/// `BytesMut::len`: the number of bytes held.
#[verifier::external_body]
fn bytes_mut_len(b: &bytes::BytesMut) -> (n: usize)
    ensures
        n == spec_bytes_mut_contents(*b).len(),
{
    b.len()
}

/// `<BytesMut as Deref>::deref`: the bytes held, as a slice.
#[verifier::external_body]
fn bytes_mut_as_slice(b: &bytes::BytesMut) -> (s: &[u8])
    ensures
        s@ == spec_bytes_mut_contents(*b),
{
    b
}

/// `BytesMut::extend_from_slice`: append `data` to the bytes held (the buffer
/// grows as needed; it panics only past `isize::MAX` bytes).
#[verifier::external_body]
fn bytes_mut_extend(b: &mut bytes::BytesMut, data: &[u8])
    requires
        spec_bytes_mut_contents(*old(b)).len() + data@.len() <= isize::MAX,
    ensures
        spec_bytes_mut_contents(*final(b)) == spec_bytes_mut_contents(*old(b)) + data@,
{
    b.extend_from_slice(data)
}

/// `BytesMut::split_to(at)`: remove the first `at` bytes and hand them out as a
/// `Vec` (it panics when `at` exceeds the length).
#[verifier::external_body]
fn bytes_mut_split_to(b: &mut bytes::BytesMut, at: usize) -> (front: Vec<u8>)
    requires
        at <= spec_bytes_mut_contents(*old(b)).len(),
    ensures
        front@ == spec_bytes_mut_contents(*old(b)).take(at as int),
        spec_bytes_mut_contents(*final(b)) == spec_bytes_mut_contents(*old(b)).skip(at as int),
{
    b.split_to(at).to_vec()
}

/// Errors from the framing layer.
#[derive(Debug)]
pub enum FramerError {
    /// The bytes do not form a valid frame.
    Wire(WireError),
    /// The transport failed.
    Transport(TransportError),
}

/// The human-readable text of a framing error.
pub open spec fn spec_framer_error_text(e: FramerError) -> Seq<char> {
    match e {
        FramerError::Wire(w) => "wire: "@ + spec_wire_error_text(w),
        FramerError::Transport(t) => "transport: "@ + spec_transport_error_text(t),
    }
}

impl FramerError {
    /// The human-readable text of this error.
    pub fn to_display_string(&self) -> (s: String)
        ensures
            s@ == spec_framer_error_text(*self),
    {
        let mut s = String::new();
        match self {
            FramerError::Wire(w) => {
                push_str(&mut s, "wire: ");
                let t = w.to_display_string();
                push_str(&mut s, t.as_str());
            },
            FramerError::Transport(e) => {
                push_str(&mut s, "transport: ");
                let t = e.to_display_string();
                push_str(&mut s, t.as_str());
            },
        }
        s
    }
}

/// What the buffered bytes allow, as seen from their contents.
pub enum PollOutcome {
    /// A complete frame: its header, the length of the header encoding.
    Frame { header: FrameHeader, header_len: nat },
    /// The buffer does not hold a complete header yet.
    NeedHeader,
    /// The header is complete; `missing` more bytes are needed for the payload.
    NeedPayload { missing: nat },
    /// The bytes are not a valid frame.
    Failed(WireError),
}

/// What trying to read a header from the buffered bytes `s` gives: nothing yet,
/// a header and its length, or an error other than `Incomplete`.
pub open spec fn spec_try_parse_header(s: Seq<u8>) -> Result<Option<(FrameHeader, usize)>, WireError> {
    if s.len() == 0 {
        Ok(None)
    } else {
        match spec_header_decode(s) {
            Ok(p) => Ok(Some(p)),
            Err(WireError::Incomplete { .. }) => Ok(None),
            Err(e) => Err(e),
        }
    }
}

/// What the buffered bytes `s` allow when payloads are limited to `max` bytes.
pub open spec fn spec_poll(s: Seq<u8>, max: u64) -> PollOutcome {
    match spec_try_parse_header(s) {
        Err(e) => PollOutcome::Failed(e),
        Ok(None) => PollOutcome::NeedHeader,
        Ok(Some((header, n))) => if header.payload_len > max {
            PollOutcome::Failed(
                WireError::PayloadTooLarge { declared: header.payload_len, max_allowed: max },
            )
        } else if s.len() >= n + header.payload_len {
            PollOutcome::Frame { header, header_len: n as nat }
        } else {
            PollOutcome::NeedPayload { missing: (n + header.payload_len - s.len()) as nat }
        },
    }
}

/// The progress of reading the next frame.
#[derive(Debug)]
pub enum ReadProgress {
    /// A complete frame was taken out of the buffer.
    Frame(FrameHeader, Vec<u8>),
    /// More bytes are needed before a header can be read (read at least one).
    NeedHeader,
    /// The header is buffered; read at least this many more bytes for the payload.
    NeedPayload(usize),
}

/// Frame reader and encoder with a reassembly buffer.
pub struct Framer {
    read_buf: bytes::BytesMut,
    max_frame_size: u64,
}

impl Framer {
    /// The bytes received and not yet consumed.
    pub closed spec fn buffered_bytes(&self) -> Seq<u8> {
        spec_bytes_mut_contents(self.read_buf)
    }

    /// The largest payload accepted in an incoming frame.
    pub closed spec fn max_frame_size(&self) -> u64 {
        self.max_frame_size
    }

    /// A framer with an empty buffer and the default maximum payload size.
    pub fn new() -> (f: Self)
        ensures
            f.buffered_bytes() == Seq::<u8>::empty(),
            f.max_frame_size() == DEFAULT_MAX_FRAME_SIZE,
    {
        Self {
            read_buf: bytes_mut_with_capacity(READ_BUFFER_CAPACITY),
            max_frame_size: DEFAULT_MAX_FRAME_SIZE,
        }
    }

    /// This framer with the maximum payload size for incoming frames set to `max`.
    pub fn with_max_frame_size(self, max: u64) -> (f: Self)
        ensures
            f.buffered_bytes() == self.buffered_bytes(),
            f.max_frame_size() == max,
    {
        let mut f = self;
        f.max_frame_size = max;
        f
    }

    /// The bytes of a complete frame: the encoded header followed by the payload,
    /// ready for one write to the transport.
    pub fn encode_frame(&self, header: &FrameHeader, payload: &[u8]) -> (r: Result<
        Vec<u8>,
        FramerError,
    >)
        ensures
            spec_header_encodable(*header) ==> r is Ok && r->Ok_0@ == spec_header_bytes(*header)
                + payload@,
            !spec_header_encodable(*header) ==> r is Err && r->Err_0 == FramerError::Wire(
                WireError::InvalidVarInt,
            ),
    {
        let header_len = header.encoded_len();
        let mut combined: Vec<u8> = Vec::new();
        let mut i: usize = 0;
        while i < header_len
            invariant
                i <= header_len,
                combined@.len() == i,
            decreases header_len - i,
        {
            combined.push(0u8);
            i = i + 1;
        }
        match header.encode(combined.as_mut_slice()) {
            Ok(_) => {},
            Err(e) => {
                return Err(FramerError::Wire(e));
            },
        }
        assert(combined@ =~= spec_header_bytes(*header));
        let mut j: usize = 0;
        while j < payload.len()
            invariant
                j <= payload@.len(),
                combined@ == spec_header_bytes(*header) + payload@.take(j as int),
            decreases payload@.len() - j,
        {
            combined.push(payload[j]);
            proof {
                assert(payload@.take(j + 1) =~= payload@.take(j as int).push(payload@[j as int]));
            }
            j = j + 1;
        }
        assert(payload@.take(j as int) =~= payload@);
        Ok(combined)
    }

    /// Append bytes read from the transport to the buffer.
    pub fn push_bytes(&mut self, data: &[u8])
        requires
            old(self).buffered_bytes().len() + data@.len() <= isize::MAX,
        ensures
            final(self).buffered_bytes() == old(self).buffered_bytes() + data@,
            final(self).max_frame_size() == old(self).max_frame_size(),
    {
        bytes_mut_extend(&mut self.read_buf, data);
    }

    /// Try to read a header from the buffered bytes.
    fn try_parse_header(&self) -> (r: Result<Option<(FrameHeader, usize)>, FramerError>)
        ensures
            match spec_try_parse_header(self.buffered_bytes()) {
                Ok(p) => r == Ok::<Option<(FrameHeader, usize)>, FramerError>(p),
                Err(e) => r is Err && r->Err_0 == FramerError::Wire(e),
            },
    {
        if bytes_mut_len(&self.read_buf) == 0 {
            return Ok(None);
        }
        match FrameHeader::decode(bytes_mut_as_slice(&self.read_buf)) {
            Ok((header, len)) => Ok(Some((header, len))),
            Err(WireError::Incomplete { .. }) => Ok(None),
            Err(e) => Err(FramerError::Wire(e)),
        }
    }

    /// Take the next complete frame out of the buffer, if there is one.
    ///
    /// Refuses a header whose payload length exceeds the maximum before its
    /// payload arrives. Otherwise says how many more bytes are needed.
    pub fn poll_frame(&mut self) -> (r: Result<ReadProgress, FramerError>)
        requires
            old(self).max_frame_size() + 25 <= usize::MAX,
        ensures
            final(self).max_frame_size() == old(self).max_frame_size(),
            match spec_poll(old(self).buffered_bytes(), old(self).max_frame_size()) {
                PollOutcome::Failed(e) => r is Err && r->Err_0 == FramerError::Wire(e)
                    && final(self).buffered_bytes() == old(self).buffered_bytes(),
                PollOutcome::NeedHeader => r matches Ok(ReadProgress::NeedHeader)
                    && final(self).buffered_bytes() == old(self).buffered_bytes(),
                PollOutcome::NeedPayload { missing } => r matches Ok(ReadProgress::NeedPayload(m))
                    && m == missing && final(self).buffered_bytes() == old(self).buffered_bytes(),
                PollOutcome::Frame { header, header_len } => r matches Ok(
                    ReadProgress::Frame(h, p),
                ) && h == header && p@ == old(self).buffered_bytes().subrange(
                    header_len as int,
                    header_len + header.payload_len,
                ) && final(self).buffered_bytes() == old(self).buffered_bytes().skip(
                    header_len + header.payload_len,
                ),
            },
    {
        let parsed = match self.try_parse_header() {
            Ok(p) => p,
            Err(e) => {
                return Err(e);
            },
        };
        match parsed {
            None => Ok(ReadProgress::NeedHeader),
            Some((header, header_len)) => {
                proof {
                    crate::wire::header::lemma_header_decode_len(self.buffered_bytes());
                }
                if header.payload_len > self.max_frame_size {
                    return Err(
                        FramerError::Wire(
                            WireError::PayloadTooLarge {
                                declared: header.payload_len,
                                max_allowed: self.max_frame_size,
                            },
                        ),
                    );
                }
                let payload_len = header.payload_len as usize;
                let total_needed = header_len + payload_len;
                let available = bytes_mut_len(&self.read_buf);
                if available >= total_needed {
                    let ghost before = self.buffered_bytes();
                    let _consumed_header = bytes_mut_split_to(&mut self.read_buf, header_len);
                    let payload = bytes_mut_split_to(&mut self.read_buf, payload_len);
                    assert(payload@ =~= before.subrange(
                        header_len as int,
                        header_len + header.payload_len,
                    ));
                    assert(self.buffered_bytes() =~= before.skip(header_len + header.payload_len));
                    Ok(ReadProgress::Frame(header, payload))
                } else {
                    Ok(ReadProgress::NeedPayload(total_needed - available))
                }
            },
        }
    }

    /// What reading should give when the transport closes while waiting in the
    /// state `pending`: nothing (`None`, a clean close) only when no byte is
    /// buffered; otherwise the stream ended inside a frame, an `Incomplete` error.
    pub fn end_of_stream(&self, pending: &ReadProgress) -> (r: Option<FramerError>)
        ensures
            r == spec_end_of_stream(self.buffered_bytes().len(), *pending),
    {
        let n = bytes_mut_len(&self.read_buf);
        if n == 0 {
            return None;
        }
        match pending {
            ReadProgress::NeedPayload(m) => {
                let needed = if *m <= usize::MAX - n {
                    n + *m
                } else {
                    usize::MAX
                };
                Some(FramerError::Wire(WireError::Incomplete { needed_min: needed, available: n }))
            },
            _ => Some(FramerError::Wire(WireError::Incomplete { needed_min: 4, available: n })),
        }
    }

    /// The largest payload accepted in an incoming frame.
    pub fn max_payload(&self) -> (m: u64)
        ensures
            m == self.max_frame_size(),
    {
        self.max_frame_size
    }

    /// Number of buffered bytes not yet consumed.
    pub fn buffered(&self) -> (n: usize)
        ensures
            n == self.buffered_bytes().len(),
    {
        bytes_mut_len(&self.read_buf)
    }
}

/// What reading gives when the stream ends with `available` bytes buffered while
/// waiting in the state `pending`: a clean close (`None`) only with nothing
/// buffered; otherwise an `Incomplete` error, which counts the bytes a frame still
/// needed (saturating) while waiting for a payload, and the minimal header length
/// otherwise.
pub open spec fn spec_end_of_stream(available: nat, pending: ReadProgress) -> Option<FramerError> {
    if available == 0 {
        None
    } else {
        match pending {
            ReadProgress::NeedPayload(m) => Some(
                FramerError::Wire(
                    WireError::Incomplete {
                        needed_min: if available + m <= usize::MAX {
                            (available + m) as usize
                        } else {
                            usize::MAX
                        },
                        available: available as usize,
                    },
                ),
            ),
            _ => Some(
                FramerError::Wire(WireError::Incomplete { needed_min: 4, available: available as usize }),
            ),
        }
    }
}

impl Default for Framer {
    fn default() -> (f: Self)
        ensures
            f.buffered_bytes() == Seq::<u8>::empty(),
            f.max_frame_size() == DEFAULT_MAX_FRAME_SIZE,
    {
        Self::new()
    }
}

/// When the buffer holds a complete frame followed by other bytes, polling yields
/// that frame's header and payload and keeps the bytes that follow.
pub proof fn lemma_poll_complete_frame(header: FrameHeader, payload: Seq<u8>, rest: Seq<u8>, max: u64)
    requires
        spec_header_encodable(header),
        payload.len() == header.payload_len,
        header.payload_len <= max,
    ensures
        ({
            let s = spec_header_bytes(header) + payload + rest;
            &&& spec_poll(s, max) == (PollOutcome::Frame {
                header,
                header_len: spec_header_len(header),
            })
            &&& s.subrange(spec_header_len(header) as int, spec_header_len(header) + header.payload_len)
                == payload
            &&& s.skip(spec_header_len(header) + header.payload_len) == rest
        }),
{
    let hb = spec_header_bytes(header);
    let s = hb + payload + rest;
    lemma_header_roundtrip(header, payload + rest);
    assert(s =~= hb + (payload + rest));
    assert(s.subrange(hb.len() as int, (hb.len() + payload.len()) as int) =~= payload);
    assert(s.skip((hb.len() + payload.len()) as int) =~= rest);
}

/// A header that announces more payload than `max` is refused as soon as the
/// header itself is buffered, whatever part of its payload (none, some, or all of
/// it, and more) follows.
pub proof fn lemma_poll_refuses_oversized(header: FrameHeader, rest: Seq<u8>, max: u64)
    requires
        spec_header_encodable(header),
        header.payload_len > max,
    ensures
        spec_poll(spec_header_bytes(header) + rest, max) == PollOutcome::Failed(
            WireError::PayloadTooLarge { declared: header.payload_len, max_allowed: max },
        ),
{
    lemma_header_roundtrip(header, rest);
}

/// A complete header within the limit followed by only part of its payload asks
/// for exactly the bytes of payload still missing.
pub proof fn lemma_poll_partial_payload(header: FrameHeader, partial: Seq<u8>, max: u64)
    requires
        spec_header_encodable(header),
        header.payload_len <= max,
        partial.len() < header.payload_len,
    ensures
        spec_poll(spec_header_bytes(header) + partial, max) == (PollOutcome::NeedPayload {
            missing: (header.payload_len - partial.len()) as nat,
        }),
{
    lemma_header_roundtrip(header, partial);
}

} // verus!
