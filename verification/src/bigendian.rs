//! Big-endian (network order) integers of 2, 4 and 8 bytes.

use vstd::prelude::*;

verus! {

/// The 16-bit value whose big-endian form is `b0 b1`.
pub open spec fn be16(b0: u8, b1: u8) -> u16 {
    (b0 * 0x100 + b1) as u16
}

/// The 32-bit value whose big-endian form is `b0 b1 b2 b3`: the upper half
/// comes first.
pub open spec fn be32(b0: u8, b1: u8, b2: u8, b3: u8) -> u32 {
    (be16(b0, b1) * 0x1_0000 + be16(b2, b3)) as u32
}

/// The 64-bit value whose big-endian form is `b0 .. b7`: the upper half
/// comes first.
pub open spec fn be64(b0: u8, b1: u8, b2: u8, b3: u8, b4: u8, b5: u8, b6: u8, b7: u8) -> u64 {
    (be32(b0, b1, b2, b3) * 0x1_0000_0000 + be32(b4, b5, b6, b7)) as u64
}

/// The two bytes of `v`, most significant first.
pub open spec fn be16_bytes(v: u16) -> Seq<u8> {
    seq![(v / 0x100) as u8, (v % 0x100) as u8]
}

/// The four bytes of `v`, most significant first.
pub open spec fn be32_bytes(v: u32) -> Seq<u8> {
    be16_bytes((v / 0x1_0000) as u16) + be16_bytes((v % 0x1_0000) as u16)
}

/// The eight bytes of `v`, most significant first.
pub open spec fn be64_bytes(v: u64) -> Seq<u8> {
    be32_bytes((v / 0x1_0000_0000) as u32) + be32_bytes((v % 0x1_0000_0000) as u32)
}

/// The 16-bit value that `b` holds at offset `at`.
pub open spec fn be16_at(b: Seq<u8>, at: int) -> u16
    recommends
        0 <= at,
        at + 2 <= b.len(),
{
    be16(b[at], b[at + 1])
}

/// The 32-bit value that `b` holds at offset `at`.
pub open spec fn be32_at(b: Seq<u8>, at: int) -> u32
    recommends
        0 <= at,
        at + 4 <= b.len(),
{
    be32(b[at], b[at + 1], b[at + 2], b[at + 3])
}

/// The 64-bit value that `b` holds at offset `at`.
pub open spec fn be64_at(b: Seq<u8>, at: int) -> u64
    recommends
        0 <= at,
        at + 8 <= b.len(),
{
    be64(
        b[at],
        b[at + 1],
        b[at + 2],
        b[at + 3],
        b[at + 4],
        b[at + 5],
        b[at + 6],
        b[at + 7],
    )
}

/// Decoding the big-endian form of a 16-bit value gives the value back.
pub proof fn lemma_be16_of_bytes(v: u16)
    ensures
        be16_bytes(v).len() == 2,
        be16_at(be16_bytes(v), 0) == v,
{
}

/// Encoding the value of two bytes gives the two bytes back.
pub proof fn lemma_bytes_of_be16(b0: u8, b1: u8)
    ensures
        be16_bytes(be16(b0, b1)) == seq![b0, b1],
{
    assert(be16_bytes(be16(b0, b1)) =~= seq![b0, b1]);
}

/// Decoding the big-endian form of a 32-bit value gives the value back.
pub proof fn lemma_be32_of_bytes(v: u32)
    ensures
        be32_bytes(v).len() == 4,
        be32_at(be32_bytes(v), 0) == v,
{
    let hi = (v / 0x1_0000) as u16;
    let lo = (v % 0x1_0000) as u16;
    lemma_be16_of_bytes(hi);
    lemma_be16_of_bytes(lo);
}

/// Encoding the value of four bytes gives the four bytes back.
pub proof fn lemma_bytes_of_be32(b0: u8, b1: u8, b2: u8, b3: u8)
    ensures
        be32_bytes(be32(b0, b1, b2, b3)) == seq![b0, b1, b2, b3],
{
    let v = be32(b0, b1, b2, b3);
    lemma_bytes_of_be16(b0, b1);
    lemma_bytes_of_be16(b2, b3);
    assert((v / 0x1_0000) as u16 == be16(b0, b1));
    assert((v % 0x1_0000) as u16 == be16(b2, b3));
    assert(be32_bytes(v) =~= seq![b0, b1, b2, b3]);
}

/// Decoding the big-endian form of a 64-bit value gives the value back.
pub proof fn lemma_be64_of_bytes(v: u64)
    ensures
        be64_bytes(v).len() == 8,
        be64_at(be64_bytes(v), 0) == v,
{
    let hi = (v / 0x1_0000_0000) as u32;
    let lo = (v % 0x1_0000_0000) as u32;
    lemma_be32_of_bytes(hi);
    lemma_be32_of_bytes(lo);
}

/// Encoding the value of eight bytes gives the eight bytes back.
pub proof fn lemma_bytes_of_be64(b0: u8, b1: u8, b2: u8, b3: u8, b4: u8, b5: u8, b6: u8, b7: u8)
    ensures
        be64_bytes(be64(b0, b1, b2, b3, b4, b5, b6, b7)) == seq![b0, b1, b2, b3, b4, b5, b6, b7],
{
    let v = be64(b0, b1, b2, b3, b4, b5, b6, b7);
    lemma_bytes_of_be32(b0, b1, b2, b3);
    lemma_bytes_of_be32(b4, b5, b6, b7);
    assert((v / 0x1_0000_0000) as u32 == be32(b0, b1, b2, b3));
    assert((v % 0x1_0000_0000) as u32 == be32(b4, b5, b6, b7));
    assert(be64_bytes(v) =~= seq![b0, b1, b2, b3, b4, b5, b6, b7]);
}

/// Reads the big-endian 16-bit integer at offset `at` of `input`.
pub(crate) fn read_be_u16(input: &[u8], at: usize) -> (v: u16)
    requires
        at + 2 <= input@.len(),
    ensures
        v == be16_at(input@, at as int),
{
    let b0: u16 = input[at] as u16;
    let b1: u16 = input[at + 1] as u16;
    b0 * 0x100 + b1
}

/// Reads the big-endian 32-bit integer at offset `at` of `input`.
pub(crate) fn read_be_u32(input: &[u8], at: usize) -> (v: u32)
    requires
        at + 4 <= input@.len(),
    ensures
        v == be32_at(input@, at as int),
{
    assert(input@.len() <= usize::MAX) by {
        vstd::slice::axiom_spec_len(input);
    }
    let hi: u32 = read_be_u16(input, at) as u32;
    let lo: u32 = read_be_u16(input, at + 2) as u32;
    hi * 0x1_0000 + lo
}

/// Reads the big-endian 64-bit integer at offset `at` of `input`.
pub(crate) fn read_be_u64(input: &[u8], at: usize) -> (v: u64)
    requires
        at + 8 <= input@.len(),
    ensures
        v == be64_at(input@, at as int),
{
    assert(input@.len() <= usize::MAX) by {
        vstd::slice::axiom_spec_len(input);
    }
    let hi: u64 = read_be_u32(input, at) as u64;
    let lo: u64 = read_be_u32(input, at + 4) as u64;
    hi * 0x1_0000_0000 + lo
}

/// Appends the two bytes of `v` to `buf`, most significant first.
pub(crate) fn write_be_u16(buf: &mut Vec<u8>, v: u16)
    ensures
        final(buf)@ == old(buf)@ + be16_bytes(v),
{
    buf.push((v / 0x100) as u8);
    buf.push((v % 0x100) as u8);
    assert(buf@ =~= old(buf)@ + be16_bytes(v));
}

/// Appends the four bytes of `v` to `buf`, most significant first.
pub(crate) fn write_be_u32(buf: &mut Vec<u8>, v: u32)
    ensures
        final(buf)@ == old(buf)@ + be32_bytes(v),
{
    write_be_u16(buf, (v / 0x1_0000) as u16);
    write_be_u16(buf, (v % 0x1_0000) as u16);
    assert(buf@ =~= old(buf)@ + be32_bytes(v));
}

/// Appends the eight bytes of `v` to `buf`, most significant first.
pub(crate) fn write_be_u64(buf: &mut Vec<u8>, v: u64)
    ensures
        final(buf)@ == old(buf)@ + be64_bytes(v),
{
    write_be_u32(buf, (v / 0x1_0000_0000) as u32);
    write_be_u32(buf, (v % 0x1_0000_0000) as u32);
    assert(buf@ =~= old(buf)@ + be64_bytes(v));
}

} // verus!
