//! Byte-order primitives for the native structures: how a fixed-width integer
//! is laid out in memory in network (big-endian) and host (little-endian) order.
use vstd::prelude::*;

verus! {

/// The two bytes of `x`, least significant first.
pub open spec fn le16(x: u16) -> Seq<u8> {
    seq![(x & 0xff) as u8, (x >> 8) as u8]
}

/// The two bytes of `x`, most significant first.
pub open spec fn be16(x: u16) -> Seq<u8> {
    seq![(x >> 8) as u8, (x & 0xff) as u8]
}

/// The four bytes of `x`, least significant first.
pub open spec fn le32(x: u32) -> Seq<u8> {
    seq![(x & 0xff) as u8, ((x >> 8) & 0xff) as u8, ((x >> 16) & 0xff) as u8, (x >> 24) as u8]
}

/// The four bytes of `x`, most significant first.
pub open spec fn be32(x: u32) -> Seq<u8> {
    seq![(x >> 24) as u8, ((x >> 16) & 0xff) as u8, ((x >> 8) & 0xff) as u8, (x & 0xff) as u8]
}

/// The eight bytes of `x`, least significant first.
pub open spec fn le64(x: u64) -> Seq<u8> {
    le32((x & 0xffff_ffff) as u32) + le32((x >> 32) as u32)
}

/// The 16-bit value stored little-endian at `s[i..i + 2]`.
pub open spec fn le16_at(s: Seq<u8>, i: int) -> u16 {
    (s[i] as u16) | ((s[i + 1] as u16) << 8)
}

/// The 16-bit value stored big-endian at `s[i..i + 2]`.
pub open spec fn be16_at(s: Seq<u8>, i: int) -> u16 {
    ((s[i] as u16) << 8) | (s[i + 1] as u16)
}

/// The 32-bit value stored little-endian at `s[i..i + 4]`.
pub open spec fn le32_at(s: Seq<u8>, i: int) -> u32 {
    (s[i] as u32) | ((s[i + 1] as u32) << 8) | ((s[i + 2] as u32) << 16) | ((s[i + 3] as u32)
        << 24)
}

/// Reading back what `le16` wrote gives the value.
pub proof fn lemma_le16_round_trip(x: u16)
    ensures
        le16_at(le16(x), 0) == x,
{
    assert((((x & 0xff) as u8) as u16) | ((((x >> 8) as u8) as u16) << 8) == x) by (bit_vector);
}

/// Reading back what `be16` wrote gives the value.
pub proof fn lemma_be16_round_trip(x: u16)
    ensures
        be16_at(be16(x), 0) == x,
{
    assert(((((x >> 8) as u8) as u16) << 8) | (((x & 0xff) as u8) as u16) == x) by (bit_vector);
}

/// Reading back what `le32` wrote gives the value.
pub proof fn lemma_le32_round_trip(x: u32)
    ensures
        le32_at(le32(x), 0) == x,
{
    assert((((x & 0xff) as u8) as u32) | (((((x >> 8) & 0xff) as u8) as u32) << 8) | (((((x
        >> 16) & 0xff) as u8) as u32) << 16) | ((((x >> 24) as u8) as u32) << 24) == x)
        by (bit_vector);
}

/// Appends the bytes of `x`, least significant first.
pub fn push_le16(v: &mut Vec<u8>, x: u16)
    ensures
        final(v)@ == old(v)@ + le16(x),
{
    v.push((x & 0xff) as u8);
    v.push((x >> 8) as u8);
    assert(final(v)@ =~= old(v)@ + le16(x));
}

/// Appends the bytes of `x`, most significant first.
pub fn push_be16(v: &mut Vec<u8>, x: u16)
    ensures
        final(v)@ == old(v)@ + be16(x),
{
    v.push((x >> 8) as u8);
    v.push((x & 0xff) as u8);
    assert(final(v)@ =~= old(v)@ + be16(x));
}

/// Appends the bytes of `x`, least significant first.
pub fn push_le32(v: &mut Vec<u8>, x: u32)
    ensures
        final(v)@ == old(v)@ + le32(x),
{
    v.push((x & 0xff) as u8);
    v.push(((x >> 8) & 0xff) as u8);
    v.push(((x >> 16) & 0xff) as u8);
    v.push((x >> 24) as u8);
    assert(final(v)@ =~= old(v)@ + le32(x));
}

/// Appends the bytes of `x`, least significant first.
pub fn push_le64(v: &mut Vec<u8>, x: u64)
    ensures
        final(v)@ == old(v)@ + le64(x),
{
    push_le32(v, (x & 0xffff_ffff) as u32);
    push_le32(v, (x >> 32) as u32);
    assert(final(v)@ =~= old(v)@ + le64(x));
}

/// The 16-bit value stored little-endian at `s[i..i + 2]`.
pub fn read_le16(s: &[u8], i: usize) -> (r: u16)
    requires
        i + 2 <= s@.len(),
    ensures
        r == le16_at(s@, i as int),
{
    (s[i] as u16) | ((s[i + 1] as u16) << 8)
}

/// The 16-bit value stored big-endian at `s[i..i + 2]`.
pub fn read_be16(s: &[u8], i: usize) -> (r: u16)
    requires
        i + 2 <= s@.len(),
    ensures
        r == be16_at(s@, i as int),
{
    ((s[i] as u16) << 8) | (s[i + 1] as u16)
}

/// The 32-bit value stored little-endian at `s[i..i + 4]`.
pub fn read_le32(s: &[u8], i: usize) -> (r: u32)
    requires
        i + 4 <= s@.len(),
    ensures
        r == le32_at(s@, i as int),
{
    (s[i] as u32) | ((s[i + 1] as u32) << 8) | ((s[i + 2] as u32) << 16) | ((s[i + 3] as u32)
        << 24)
}

} // verus!
