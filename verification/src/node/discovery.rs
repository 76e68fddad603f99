//! LAN discovery beacons: `PO|<node id>|<QUIC port>`.
//!
//! Broadcasting and listening is I/O done by the application crate; building and
//! parsing the beacon text is done here, on its bytes.

use vstd::prelude::*;
use crate::bytes_util::{extend_bytes, bytes_equal};

verus! {

/// Default discovery port.
pub const DISCOVERY_PORT: u16 = 5433;

/// The separator `|` of beacon fields.
pub const BEACON_SEPARATOR: u8 = 0x7C;

/// The first field of every beacon: "PO".
pub open spec fn spec_beacon_tag() -> Seq<u8> {
    seq![0x50u8, 0x4Fu8]
}

/// The ASCII byte of a decimal digit.
pub open spec fn spec_digit_byte(d: nat) -> u8 {
    (0x30 + d) as u8
}

/// The ASCII decimal rendering of `n`, without leading zeros.
pub open spec fn spec_decimal_ascii(n: nat) -> Seq<u8>
    decreases n,
{
    if n < 10 {
        seq![spec_digit_byte(n)]
    } else {
        spec_decimal_ascii(n / 10).push(spec_digit_byte(n % 10))
    }
}

/// Whether every byte of `d` is an ASCII decimal digit.
pub open spec fn spec_all_digits(d: Seq<u8>) -> bool {
    forall|i: int| 0 <= i < d.len() ==> 0x30 <= #[trigger] d[i] <= 0x39
}

/// The number written by the decimal digits `d` (leading zeros allowed).
pub open spec fn spec_digits_value(d: Seq<u8>) -> nat
    decreases d.len(),
{
    if d.len() == 0 {
        0
    } else {
        spec_digits_value(d.drop_last()) * 10 + (d.last() - 0x30) as nat
    }
}

/// What reading `s` as a decimal `u16` gives: an optional `+` sign followed by at
/// least one digit, for a value that fits in 16 bits.
pub open spec fn spec_parse_u16(s: Seq<u8>) -> Option<u16> {
    let digits = if s.len() > 0 && s[0] == 0x2B {
        s.skip(1)
    } else {
        s
    };
    if digits.len() == 0 || !spec_all_digits(digits) || spec_digits_value(digits) > 0xFFFF {
        None
    } else {
        Some(spec_digits_value(digits) as u16)
    }
}

/// The index of the first `b` in `s` at or after `from`, or -1.
pub open spec fn spec_find(s: Seq<u8>, b: u8, from: int) -> int
    decreases s.len() - from,
{
    if from < 0 || from >= s.len() {
        -1
    } else if s[from] == b {
        from
    } else {
        spec_find(s, b, from + 1)
    }
}

/// The beacon of a node: `PO|<node id>|<port>`.
pub open spec fn spec_beacon(node_id: Seq<u8>, port: u16) -> Seq<u8> {
    spec_beacon_tag() + seq![BEACON_SEPARATOR] + node_id + seq![BEACON_SEPARATOR]
        + spec_decimal_ascii(port as nat)
}

/// What parsing the beacon text `msg` gives: the node id and the QUIC port when
/// `msg` has exactly three `|`-separated fields, the first is "PO" and the third
/// reads as a port.
pub open spec fn spec_parse_beacon(msg: Seq<u8>) -> Option<(Seq<u8>, u16)> {
    let i = spec_find(msg, BEACON_SEPARATOR, 0);
    let j = spec_find(msg, BEACON_SEPARATOR, i + 1);
    if i < 0 || j < 0 || spec_find(msg, BEACON_SEPARATOR, j + 1) >= 0 {
        None
    } else if msg.subrange(0, i) != spec_beacon_tag() {
        None
    } else {
        match spec_parse_u16(msg.subrange(j + 1, msg.len() as int)) {
            None => None,
            Some(port) => Some((msg.subrange(i + 1, j), port)),
        }
    }
}

fn digit_byte(d: u64) -> (b: u8)
    requires
        d < 10,
    ensures
        b == spec_digit_byte(d as nat),
{
    (0x30 + d) as u8
}

fn push_decimal_ascii(v: &mut Vec<u8>, n: u64)
    ensures
        final(v)@ == old(v)@ + spec_decimal_ascii(n as nat),
    decreases n,
{
    if n >= 10 {
        push_decimal_ascii(v, n / 10);
    }
    v.push(digit_byte(n % 10));
    proof {
        if n >= 10 {
            assert(spec_decimal_ascii(n as nat) == spec_decimal_ascii((n / 10) as nat).push(
                spec_digit_byte((n % 10) as nat),
            ));
        }
    }
    assert(final(v)@ =~= old(v)@ + spec_decimal_ascii(n as nat)) by {
        if n >= 10 {
        }
    }
}

/// The beacon text of a node with the given id and QUIC port.
pub fn beacon_message(node_id: &[u8], quic_port: u16) -> (msg: Vec<u8>)
    ensures
        msg@ == spec_beacon(node_id@, quic_port),
{
    let mut msg: Vec<u8> = Vec::new();
    msg.push(0x50u8);
    msg.push(0x4Fu8);
    msg.push(BEACON_SEPARATOR);
    extend_bytes(&mut msg, node_id);
    msg.push(BEACON_SEPARATOR);
    push_decimal_ascii(&mut msg, quic_port as u64);
    assert(msg@ =~= spec_beacon(node_id@, quic_port));
    msg
}

fn find(s: &[u8], b: u8, from: usize) -> (r: Option<usize>)
    requires
        from <= s@.len(),
    ensures
        match r {
            Some(i) => spec_find(s@, b, from as int) == i as int && i < s@.len(),
            None => spec_find(s@, b, from as int) == -1,
        },
{
    let mut i = from;
    while i < s.len()
        invariant
            from <= i <= s@.len(),
            spec_find(s@, b, from as int) == spec_find(s@, b, i as int),
        decreases s@.len() - i,
    {
        if s[i] == b {
            return Some(i);
        }
        i = i + 1;
    }
    None
}

proof fn lemma_value_prefix_bound(d: Seq<u8>, k: int)
    requires
        spec_all_digits(d),
        0 <= k <= d.len(),
    ensures
        spec_digits_value(d.take(k)) <= spec_digits_value(d),
    decreases d.len(),
{
    if k < d.len() {
        let e = d.drop_last();
        assert(spec_all_digits(e));
        lemma_value_prefix_bound(e, k);
        assert(e.take(k) =~= d.take(k));
    } else {
        assert(d.take(k) =~= d);
    }
}

/// Read `s` as a decimal `u16`, as `str::parse::<u16>` does.
fn parse_u16(s: &[u8]) -> (r: Option<u16>)
    ensures
        r == spec_parse_u16(s@),
{
    let start: usize = if s.len() > 0 && s[0] == 0x2B {
        1
    } else {
        0
    };
    let ghost digits = s@.skip(start as int);
    assert(digits == (if s@.len() > 0 && s@[0] == 0x2B {
        s@.skip(1)
    } else {
        s@
    })) by {
        if start == 0 {
            assert(s@.skip(0) =~= s@);
        }
    }
    if start == s.len() {
        return None;
    }
    let mut acc: u32 = 0;
    let mut i = start;
    while i < s.len()
        invariant
            start <= i <= s@.len(),
            start < s@.len(),
            digits == s@.skip(start as int),
            digits == (if s@.len() > 0 && s@[0] == 0x2B {
                s@.skip(1)
            } else {
                s@
            }),
            spec_all_digits(digits.take(i - start)),
            acc == spec_digits_value(digits.take(i - start)),
            acc <= 0xFFFF,
        decreases s@.len() - i,
    {
        let c = s[i];
        let ghost k = i - start;
        assert(digits[k] == c);
        if c < 0x30 || c > 0x39 {
            assert(!spec_all_digits(digits));
            return None;
        }
        let next = acc * 10 + (c - 0x30) as u32;
        assert(digits.take(k + 1).drop_last() =~= digits.take(k));
        assert(spec_all_digits(digits.take(k + 1)));
        assert(next == spec_digits_value(digits.take(k + 1)));
        if next > 0xFFFF {
            proof {
                if spec_all_digits(digits) {
                    lemma_value_prefix_bound(digits, k + 1);
                }
            }
            return None;
        }
        acc = next;
        i = i + 1;
    }
    assert(digits.take(i - start) =~= digits);
    Some(acc as u16)
}

/// Parse beacon text: the node id and QUIC port of `PO|<node id>|<port>`, or
/// `None` for anything else.
pub fn parse_beacon(msg: &[u8]) -> (r: Option<(Vec<u8>, u16)>)
    ensures
        match spec_parse_beacon(msg@) {
            None => r is None,
            Some((id, port)) => r is Some && r->Some_0.0@ == id && r->Some_0.1 == port,
        },
{
    let n = msg.len();
    let i = match find(msg, BEACON_SEPARATOR, 0) {
        Some(i) => i,
        None => {
            return None;
        },
    };
    let j = match find(msg, BEACON_SEPARATOR, i + 1) {
        Some(j) => j,
        None => {
            return None;
        },
    };
    match find(msg, BEACON_SEPARATOR, j + 1) {
        Some(_) => {
            return None;
        },
        None => {},
    }
    if i != 2 || msg[0] != 0x50u8 || msg[1] != 0x4Fu8 {
        proof {
            let field = msg@.subrange(0, i as int);
            if i != 2 {
                assert(field.len() != spec_beacon_tag().len());
            } else if msg@[0] != 0x50u8 {
                assert(field[0] != spec_beacon_tag()[0]);
            } else {
                assert(field[1] != spec_beacon_tag()[1]);
            }
        }
        return None;
    }
    assert(msg@.subrange(0, 2) =~= spec_beacon_tag());
    let port_field = vstd::slice::slice_subrange(msg, j + 1, msg.len());
    let port = match parse_u16(port_field) {
        Some(p) => p,
        None => {
            return None;
        },
    };
    let id = crate::bytes_util::to_vec(vstd::slice::slice_subrange(msg, i + 1, j));
    Some((id, port))
}

/// The peer announced by beacon text `msg`, as seen by the node whose id is
/// `our_node_id`: `None` for text that is not a beacon and for our own beacon.
pub fn peer_from_beacon(msg: &[u8], our_node_id: &[u8]) -> (r: Option<(Vec<u8>, u16)>)
    ensures
        match spec_parse_beacon(msg@) {
            None => r is None,
            Some((id, port)) => if id == our_node_id@ {
                r is None
            } else {
                r is Some && r->Some_0.0@ == id && r->Some_0.1 == port
            },
        },
{
    match parse_beacon(msg) {
        None => None,
        Some((id, port)) => {
            if bytes_equal(id.as_slice(), our_node_id) {
                None
            } else {
                Some((id, port))
            }
        },
    }
}

proof fn lemma_decimal_ascii(n: nat)
    ensures
        spec_decimal_ascii(n).len() > 0,
        spec_all_digits(spec_decimal_ascii(n)),
        spec_digits_value(spec_decimal_ascii(n)) == n,
    decreases n,
{
    let d = spec_decimal_ascii(n);
    if n < 10 {
        assert(d.drop_last() =~= Seq::<u8>::empty());
        assert(spec_digits_value(d.drop_last()) == 0);
    }
    if n >= 10 {
        lemma_decimal_ascii(n / 10);
        let prefix = spec_decimal_ascii(n / 10);
        assert(d.drop_last() =~= prefix);
        assert(d.last() == spec_digit_byte(n % 10));
        assert(n == (n / 10) * 10 + n % 10);
        assert(spec_all_digits(d)) by {
            assert forall|i: int| 0 <= i < d.len() implies 0x30 <= #[trigger] d[i] <= 0x39 by {
                if i < prefix.len() {
                    assert(d[i] == prefix[i]);
                }
            }
        }
    }
}

proof fn lemma_find_absent(s: Seq<u8>, b: u8, from: int, to: int)
    requires
        0 <= from <= to <= s.len(),
        forall|k: int| from <= k < to ==> s[k] != b,
    ensures
        spec_find(s, b, from) == (if to == s.len() {
            -1
        } else {
            spec_find(s, b, to)
        }),
    decreases to - from,
{
    if from < to {
        lemma_find_absent(s, b, from + 1, to);
    }
}

/// Parsing the beacon of a node whose id holds no `|` gives back its id and port.
pub proof fn lemma_beacon_roundtrip(node_id: Seq<u8>, port: u16)
    requires
        forall|i: int| 0 <= i < node_id.len() ==> node_id[i] != BEACON_SEPARATOR,
    ensures
        spec_parse_beacon(spec_beacon(node_id, port)) == Some((node_id, port)),
{
    let msg = spec_beacon(node_id, port);
    let digits = spec_decimal_ascii(port as nat);
    lemma_decimal_ascii(port as nat);
    let n = node_id.len() as int;
    assert(msg[0] == 0x50u8 && msg[1] == 0x4Fu8 && msg[2] == BEACON_SEPARATOR);
    assert(spec_find(msg, BEACON_SEPARATOR, 0) == 2) by {
        reveal_with_fuel(spec_find, 3);
    }
    assert forall|k: int| 3 <= k < 3 + n implies msg[k] != BEACON_SEPARATOR by {
        assert(msg[k] == node_id[k - 3]);
    }
    assert(msg[3 + n] == BEACON_SEPARATOR);
    lemma_find_absent(msg, BEACON_SEPARATOR, 3, 3 + n);
    assert(spec_find(msg, BEACON_SEPARATOR, 3) == 3 + n);
    assert forall|k: int| 4 + n <= k < msg.len() implies msg[k] != BEACON_SEPARATOR by {
        assert(msg[k] == digits[k - 4 - n]);
    }
    lemma_find_absent(msg, BEACON_SEPARATOR, 4 + n, msg.len() as int);
    assert(msg.subrange(0, 2) =~= spec_beacon_tag());
    assert(msg.subrange(3, 3 + n) =~= node_id);
    assert(msg.subrange(4 + n, msg.len() as int) =~= digits);
    assert(digits[0] != 0x2B);
}

} // verus!
