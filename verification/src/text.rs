//! Building human-readable text: decimal and hexadecimal renderings of numbers.

use vstd::prelude::*;
use vstd::string::StringExecFns;

verus! {

/// Append one character to a string (std's `String::push`).
#[verifier::external_body]
pub(crate) fn push_char(s: &mut String, c: char)
    ensures
        final(s)@ == old(s)@.push(c),
{
    s.push(c);
}

/// The character of a decimal digit.
pub open spec fn spec_decimal_digit(d: nat) -> char {
    if d == 0 {
        '0'
    } else if d == 1 {
        '1'
    } else if d == 2 {
        '2'
    } else if d == 3 {
        '3'
    } else if d == 4 {
        '4'
    } else if d == 5 {
        '5'
    } else if d == 6 {
        '6'
    } else if d == 7 {
        '7'
    } else if d == 8 {
        '8'
    } else {
        '9'
    }
}

/// The decimal rendering of `n`, without leading zeros.
pub open spec fn spec_decimal(n: nat) -> Seq<char>
    decreases n,
{
    if n < 10 {
        seq![spec_decimal_digit(n)]
    } else {
        spec_decimal(n / 10).push(spec_decimal_digit(n % 10))
    }
}

/// The character of a lower-case hexadecimal digit.
pub open spec fn spec_hex_digit(d: nat) -> char {
    if d < 10 {
        spec_decimal_digit(d)
    } else if d == 10 {
        'a'
    } else if d == 11 {
        'b'
    } else if d == 12 {
        'c'
    } else if d == 13 {
        'd'
    } else if d == 14 {
        'e'
    } else {
        'f'
    }
}

/// The two lower-case hexadecimal digits of a byte.
pub open spec fn spec_hex_byte(b: u8) -> Seq<char> {
    seq![spec_hex_digit((b / 16) as nat), spec_hex_digit((b % 16) as nat)]
}

/// The lower-case hexadecimal rendering of `bytes`, two digits per byte.
pub open spec fn spec_hex(bytes: Seq<u8>) -> Seq<char>
    decreases bytes.len(),
{
    if bytes.len() == 0 {
        Seq::empty()
    } else {
        spec_hex(bytes.drop_last()) + spec_hex_byte(bytes.last())
    }
}

fn decimal_digit(d: u64) -> (c: char)
    requires
        d < 10,
    ensures
        c == spec_decimal_digit(d as nat),
{
    if d == 0 {
        '0'
    } else if d == 1 {
        '1'
    } else if d == 2 {
        '2'
    } else if d == 3 {
        '3'
    } else if d == 4 {
        '4'
    } else if d == 5 {
        '5'
    } else if d == 6 {
        '6'
    } else if d == 7 {
        '7'
    } else if d == 8 {
        '8'
    } else {
        '9'
    }
}

fn hex_digit(d: u8) -> (c: char)
    requires
        d < 16,
    ensures
        c == spec_hex_digit(d as nat),
{
    if d < 10 {
        decimal_digit(d as u64)
    } else if d == 10 {
        'a'
    } else if d == 11 {
        'b'
    } else if d == 12 {
        'c'
    } else if d == 13 {
        'd'
    } else if d == 14 {
        'e'
    } else {
        'f'
    }
}

/// Append the decimal rendering of `n` to `s`.
pub(crate) fn push_decimal(s: &mut String, n: u64)
    ensures
        final(s)@ == old(s)@ + spec_decimal(n as nat),
    decreases n,
{
    if n >= 10 {
        push_decimal(s, n / 10);
    }
    push_char(s, decimal_digit(n % 10));
    assert(n >= 10 ==> (n / 10) as nat == (n as nat) / 10);
}

/// Append the two hexadecimal digits of `b` to `s`.
pub(crate) fn push_hex_byte(s: &mut String, b: u8)
    ensures
        final(s)@ == old(s)@ + spec_hex_byte(b),
{
    push_char(s, hex_digit(b / 16));
    push_char(s, hex_digit(b % 16));
}

/// Append a string slice to `s`.
pub(crate) fn push_str(s: &mut String, t: &str)
    ensures
        final(s)@ == old(s)@ + t@,
{
    s.append(t);
}

/// Lower-case hexadecimal encoding of `bytes`, two digits per byte.
pub fn hex_encode(bytes: &[u8]) -> (s: String)
    ensures
        s@ == spec_hex(bytes@),
{
    let mut s = String::new();
    let mut i: usize = 0;
    while i < bytes.len()
        invariant
            i <= bytes@.len(),
            s@ == spec_hex(bytes@.take(i as int)),
        decreases bytes@.len() - i,
    {
        push_hex_byte(&mut s, bytes[i]);
        proof {
            assert(bytes@.take(i + 1).drop_last() =~= bytes@.take(i as int));
        }
        i = i + 1;
    }
    assert(bytes@.take(i as int) =~= bytes@);
    s
}

} // verus!
