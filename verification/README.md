# po — Protocol Orzatty, verified core

An end-to-end encrypted peer-to-peer protocol over QUIC, with its protocol
logic written and proved in Verus.

## Layout

- `src/` — the verified library (crate `po`):
  - `wire/` — QUIC-style variable-length integers, frame types and the frame
    header codec, with encode/decode round-trip lemmas.
  - `crypto/` — Ed25519 identities, X25519 key exchange with HKDF-SHA256, and
    the ChaCha20-Poly1305 session cipher. `crypto/primitives.rs` holds the
    only calls into the cryptographic crates and states what is assumed of them.
  - `session/` — the frame reassembly buffer, the handshake steps (with the
    lemma that an honest handshake succeeds with one shared key), the session
    state machine, and the protocol messages.
  - `node/` — discovery beacons (with a build/parse round trip) and the errors
    of the node API.
  - `transport.rs`, `text.rs`, `bytes_util.rs` — transport errors and chunked
    reads, text rendering of numbers, byte helpers.
- `app/` — the command-line program and everything that performs I/O: QUIC and
  in-memory transports, the async frame reader/writer, the handshake and
  session drivers, serde/bincode encoding of messages, LAN discovery sockets and
  the C bindings.
- `tests/` — tests of the library.
