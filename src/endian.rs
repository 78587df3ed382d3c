//! Big-endian integers in byte strings, read and written through byteorder.

use vstd::prelude::*;
use byteorder::{BigEndian, ByteOrder};

verus! {

/// The number that the big-endian bytes `s` spell.
pub open spec fn be_value(s: Seq<u8>) -> nat
    decreases s.len(),
{
    if s.len() == 0 {
        0
    } else {
        be_value(s.drop_last()) * 256 + s.last() as nat
    }
}

/// The `width` big-endian bytes of `n` (its low `width` bytes).
pub open spec fn be_bytes(n: nat, width: nat) -> Seq<u8>
    decreases width,
{
    if width == 0 {
        Seq::empty()
    } else {
        be_bytes(n / 256, (width - 1) as nat).push((n % 256) as u8)
    }
}

/// Relies on byteorder's `BigEndian::read_u16`: the first two bytes of its
/// argument, most significant first. It panics on fewer than two bytes.
#[verifier::external_body]
pub(crate) fn read_u16_at(buf: &[u8], at: usize) -> (r: u16)
    requires
        at + 2 <= buf@.len(),
    ensures
        r as nat == be_value(buf@.subrange(at as int, at + 2)),
{
    BigEndian::read_u16(&buf[at..])
}

/// Relies on byteorder's `BigEndian::read_u32`: the first four bytes of its
/// argument, most significant first. It panics on fewer than four bytes.
#[verifier::external_body]
pub(crate) fn read_u32_at(buf: &[u8], at: usize) -> (r: u32)
    requires
        at + 4 <= buf@.len(),
    ensures
        r as nat == be_value(buf@.subrange(at as int, at + 4)),
{
    BigEndian::read_u32(&buf[at..])
}

/// Relies on byteorder's `BigEndian::write_u128`: it stores `n` in the first
/// sixteen bytes of the buffer, most significant first.
#[verifier::external_body]
pub(crate) fn u128_to_be(n: u128) -> (r: Vec<u8>)
    ensures
        r@ == be_bytes(n as nat, 16),
{
    let mut buf = [0u8; 16];
    BigEndian::write_u128(&mut buf, n);
    buf.to_vec()
}

} // verus!
