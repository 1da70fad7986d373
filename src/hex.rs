//! Lowercase hexadecimal text for the diagnostic trace of a record.
use vstd::prelude::*;

verus! {

/// The digit for a nibble, and `'?'` for a value above 15.
pub open spec fn hex_digit(n: u8) -> char {
    if n < 10 {
        ((48 + n) as u8) as char
    } else if n < 16 {
        ((87 + n) as u8) as char
    } else {
        '?'
    }
}

/// Two lowercase digits per byte, high nibble first.
pub open spec fn hex_of(bytes: Seq<u8>) -> Seq<char>
    decreases bytes.len(),
{
    if bytes.len() == 0 {
        Seq::empty()
    } else {
        hex_of(bytes.drop_last()).push(hex_digit(bytes.last() / 16)).push(
            hex_digit(bytes.last() % 16),
        )
    }
}

/// The number of leading commitment bytes that the trace shows.
pub const PREFIX_BYTES: usize = 6;

/// Relies on `String::push`: the character is appended at the end.
#[verifier::external_body]
fn push_char(s: &mut String, c: char)
    ensures
        final(s)@ == old(s)@.push(c),
{
    s.push(c)
}

/// The digit for a nibble: `0`-`9`, then `a`-`f`, and `'?'` above 15.
pub fn nibble_to_hex(nibble: u8) -> (r: char)
    ensures
        r == hex_digit(nibble),
{
    if nibble < 10 {
        (48u8 + nibble) as char
    } else if nibble < 16 {
        (97u8 + (nibble - 10)) as char
    } else {
        '?'
    }
}

/// The bytes as lowercase hexadecimal, two digits each.
pub fn to_hex(bytes: &[u8]) -> (r: String)
    ensures
        r@ == hex_of(bytes@),
        r@.len() == 2 * bytes@.len(),
{
    let mut out = String::new();
    let mut i: usize = 0;
    while i < bytes.len()
        invariant
            0 <= i <= bytes@.len(),
            out@ == hex_of(bytes@.subrange(0, i as int)),
            out@.len() == 2 * i,
        decreases bytes@.len() - i,
    {
        let b = bytes[i];
        push_char(&mut out, nibble_to_hex(b >> 4));
        push_char(&mut out, nibble_to_hex(b & 0x0f));
        proof {
            let next = bytes@.subrange(0, i + 1);
            assert(next.drop_last() =~= bytes@.subrange(0, i as int));
            assert(next.last() == b);
            assert(b >> 4 == b / 16) by (bit_vector);
            assert(b & 0x0f == b % 16) by (bit_vector);
        }
        i = i + 1;
    }
    proof {
        assert(bytes@.subrange(0, bytes@.len() as int) =~= bytes@);
    }
    out
}

/// The first six bytes of a commitment as twelve lowercase hex digits.
pub fn commitment_prefix(commitment: &[u8; 32]) -> (r: String)
    ensures
        r@ == hex_of(commitment@.subrange(0, PREFIX_BYTES as int)),
        r@.len() == 12,
{
    let mut prefix: Vec<u8> = Vec::new();
    let mut i: usize = 0;
    while i < PREFIX_BYTES
        invariant
            0 <= i <= PREFIX_BYTES,
            commitment@.len() == 32,
            prefix@ == commitment@.subrange(0, i as int),
        decreases PREFIX_BYTES - i,
    {
        prefix.push(commitment[i]);
        proof {
            assert(prefix@ =~= commitment@.subrange(0, i + 1));
        }
        i = i + 1;
    }
    to_hex(prefix.as_slice())
}

} // verus!
