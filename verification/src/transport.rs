//! Errors of the byte transport that carries frames.
//!
//! The transport itself (QUIC streams, in-memory pipes) performs I/O and lives
//! in the application crate; the library only needs its errors.

use vstd::prelude::*;
use crate::text::push_str;
use crate::bytes_util::to_vec;

verus! {

/// Errors from transport operations.
#[derive(Debug)]
pub enum TransportError {
    /// The peer closed the connection.
    ConnectionClosed,
    /// The connection timed out.
    Timeout,
    /// An I/O error.
    Io(String),
    /// A TLS or QUIC error.
    Quic(String),
    /// The transport is not connected.
    NotConnected,
}

/// The human-readable text of a transport error.
pub open spec fn spec_transport_error_text(e: TransportError) -> Seq<char> {
    match e {
        TransportError::ConnectionClosed => "connection closed by peer"@,
        TransportError::Timeout => "connection timed out"@,
        TransportError::Io(m) => "I/O error: "@ + m@,
        TransportError::Quic(m) => "TLS/QUIC error: "@ + m@,
        TransportError::NotConnected => "transport not connected"@,
    }
}

impl TransportError {
    /// The human-readable text of this error.
    pub fn to_display_string(&self) -> (s: String)
        ensures
            s@ == spec_transport_error_text(*self),
    {
        let mut s = String::new();
        match self {
            TransportError::ConnectionClosed => push_str(&mut s, "connection closed by peer"),
            TransportError::Timeout => push_str(&mut s, "connection timed out"),
            TransportError::Io(m) => {
                push_str(&mut s, "I/O error: ");
                push_str(&mut s, m.as_str());
            },
            TransportError::Quic(m) => {
                push_str(&mut s, "TLS/QUIC error: ");
                push_str(&mut s, m.as_str());
            },
            TransportError::NotConnected => push_str(&mut s, "transport not connected"),
        }
        s
    }
}

/// Bytes received from a message-oriented channel and not yet handed to the
/// reader: a received chunk and the position up to which it has been read.
///
/// A stream transport built on such a channel hands out each chunk in as many
/// reads as the reader's buffer size requires.
pub struct PendingChunk {
    data: Vec<u8>,
    pos: usize,
}

impl PendingChunk {
    #[verifier::type_invariant]
    spec fn position_in_chunk(&self) -> bool {
        self.pos <= self.data@.len()
    }

    /// The bytes received and not yet read.
    pub closed spec fn remaining(&self) -> Seq<u8> {
        self.data@.skip(self.pos as int)
    }

    /// Nothing pending.
    pub fn new() -> (p: Self)
        ensures
            p.remaining() == Seq::<u8>::empty(),
    {
        let p = Self { data: Vec::new(), pos: 0 };
        assert(p.remaining() =~= Seq::<u8>::empty());
        p
    }

    /// Whether some received bytes have not been read yet.
    pub fn has_pending(&self) -> (b: bool)
        ensures
            b == (self.remaining().len() > 0),
    {
        proof {
            use_type_invariant(self);
        }
        self.pos < self.data.len()
    }

    /// Read at most `max` pending bytes; the chunk is dropped once fully read.
    pub fn take(&mut self, max: usize) -> (out: Vec<u8>)
        ensures
            out@.len() == if old(self).remaining().len() < max {
                old(self).remaining().len()
            } else {
                max as nat
            },
            out@ == old(self).remaining().take(out@.len() as int),
            final(self).remaining() == old(self).remaining().skip(out@.len() as int),
    {
        proof {
            use_type_invariant(&*self);
        }
        let available = self.data.len() - self.pos;
        let n = if available < max {
            available
        } else {
            max
        };
        let chunk = vstd::slice::slice_subrange(self.data.as_slice(), self.pos, self.pos + n);
        let out = to_vec(chunk);
        let ghost before = self.remaining();
        assert(out@ =~= before.take(n as int));
        let pos = self.pos + n;
        if pos >= self.data.len() {
            *self = Self { data: Vec::new(), pos: 0 };
        } else {
            self.pos = pos;
        }
        assert(self.remaining() =~= before.skip(n as int));
        out
    }

    /// Hand out at most `max` bytes of a newly received chunk, keeping the rest
    /// pending for the following reads. An empty chunk carries nothing to read:
    /// it gives `None`, and the reader waits for the next chunk, so a read never
    /// reports zero bytes for a buffer that has room.
    pub fn deliver(&mut self, data: Vec<u8>, max: usize) -> (out: Option<Vec<u8>>)
        requires
            old(self).remaining().len() == 0,
        ensures
            out is None <==> data@.len() == 0,
            out is None ==> final(self).remaining() == Seq::<u8>::empty(),
            out matches Some(o) ==> {
                &&& o@.len() == if data@.len() < max {
                    data@.len()
                } else {
                    max as nat
                }
                &&& max > 0 ==> o@.len() > 0
                &&& o@ == data@.take(o@.len() as int)
                &&& final(self).remaining() == data@.skip(o@.len() as int)
            },
    {
        if data.len() == 0 {
            proof {
                use_type_invariant(&*self);
            }
            return None;
        }
        let n = if data.len() < max {
            data.len()
        } else {
            max
        };
        let out = to_vec(vstd::slice::slice_subrange(data.as_slice(), 0, n));
        assert(out@ =~= data@.take(n as int));
        let ghost d = data@;
        if n < data.len() {
            *self = Self { data, pos: n };
        } else {
            *self = Self { data: Vec::new(), pos: 0 };
        }
        assert(self.remaining() =~= d.skip(n as int));
        Some(out)
    }
}

} // verus!
