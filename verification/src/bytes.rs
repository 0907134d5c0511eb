//! Numbers as they lie in a file: four bytes, in one order or the other.

use byteorder::{BigEndian, ByteOrder, LittleEndian};
use vstd::prelude::*;

verus! {

/// The number whose little-endian form is the first four bytes of `b`.
pub open spec fn le_u32(b: Seq<u8>) -> u32 {
    (b[0] as nat + b[1] as nat * 0x100 + b[2] as nat * 0x1_0000 + b[3] as nat * 0x100_0000) as u32
}

/// The number whose big-endian form is the first four bytes of `b`.
pub open spec fn be_u32(b: Seq<u8>) -> u32 {
    (b[0] as nat * 0x100_0000 + b[1] as nat * 0x1_0000 + b[2] as nat * 0x100 + b[3] as nat) as u32
}

/// `<byteorder::LittleEndian as byteorder::ByteOrder>::read_u32`. It reads
/// the first four bytes of its argument as a little-endian number and panics
/// on fewer than four bytes, which the precondition rules out.
#[verifier::external_body]
pub(crate) fn read_u32_le(buf: &[u8]) -> (v: u32)
    requires
        buf@.len() >= 4,
    ensures
        v == le_u32(buf@),
{
    LittleEndian::read_u32(buf)
}

/// `<byteorder::BigEndian as byteorder::ByteOrder>::read_u32`. It reads the
/// first four bytes of its argument as a big-endian number and panics on
/// fewer than four bytes, which the precondition rules out.
#[verifier::external_body]
pub(crate) fn read_u32_be(buf: &[u8]) -> (v: u32)
    requires
        buf@.len() >= 4,
    ensures
        v == be_u32(buf@),
{
    BigEndian::read_u32(buf)
}

/// Whether `expected` stands in `bytes` at position `at`.
pub fn stands_at(bytes: &[u8], at: usize, expected: &[u8]) -> (found: bool)
    requires
        at + expected@.len() <= bytes@.len(),
    ensures
        found == (bytes@.subrange(at as int, at + expected@.len()) == expected@),
{
    let ghost part = bytes@.subrange(at as int, at + expected@.len());
    let total = bytes.len();
    let mut i: usize = 0;
    while i < expected.len()
        invariant
            i <= expected@.len(),
            at + expected@.len() <= bytes@.len() == total,
            part == bytes@.subrange(at as int, at + expected@.len()),
            forall|j: int| 0 <= j < i ==> part[j] == expected@[j],
        decreases expected@.len() - i,
    {
        if bytes[at + i] != expected[i] {
            assert(part[i as int] != expected@[i as int]);
            return false;
        }
        i += 1;
    }
    assert(part =~= expected@);
    true
}

} // verus!
