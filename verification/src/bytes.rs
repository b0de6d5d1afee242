//! Big-endian (network byte order) encoding and decoding of 16- and 32-bit
//! integers, the only multi-byte fields the NetFlow v5 wire format uses.

use vstd::prelude::*;

verus! {

/// The big-endian 16-bit value formed by two bytes.
pub open spec fn be16(b0: u8, b1: u8) -> u16 {
    ((b0 as u16) << 8) | (b1 as u16)
}

/// The big-endian 32-bit value formed by four bytes.
pub open spec fn be32(b0: u8, b1: u8, b2: u8, b3: u8) -> u32 {
    ((b0 as u32) << 24) | ((b1 as u32) << 16) | ((b2 as u32) << 8) | (b3 as u32)
}

/// The high byte of a 16-bit value.
pub open spec fn u16_hi(x: u16) -> u8 {
    (x >> 8) as u8
}

/// The low byte of a 16-bit value.
pub open spec fn u16_lo(x: u16) -> u8 {
    (x & 0xff) as u8
}

/// The most significant byte of a 32-bit value.
pub open spec fn u32_b0(x: u32) -> u8 {
    (x >> 24) as u8
}

/// The second byte of a 32-bit value.
pub open spec fn u32_b1(x: u32) -> u8 {
    ((x >> 16) & 0xff) as u8
}

/// The third byte of a 32-bit value.
pub open spec fn u32_b2(x: u32) -> u8 {
    ((x >> 8) & 0xff) as u8
}

/// The least significant byte of a 32-bit value.
pub open spec fn u32_b3(x: u32) -> u8 {
    (x & 0xff) as u8
}

/// Splitting a 16-bit value into its bytes and reassembling them is the
/// identity.
pub proof fn lemma_be16_round_trip(x: u16)
    ensures
        be16(u16_hi(x), u16_lo(x)) == x,
{
    assert(((((x >> 8) as u8) as u16) << 8) | (((x & 0xff) as u8) as u16) == x) by (bit_vector);
}

/// Splitting a 32-bit value into its bytes and reassembling them is the
/// identity.
pub proof fn lemma_be32_round_trip(x: u32)
    ensures
        be32(u32_b0(x), u32_b1(x), u32_b2(x), u32_b3(x)) == x,
{
    assert(((((x >> 24) as u8) as u32) << 24) | (((((x >> 16) & 0xff) as u8) as u32) << 16) | (((((
    x >> 8) & 0xff) as u8) as u32) << 8) | (((x & 0xff) as u8) as u32) == x) by (bit_vector);
}

/// Reads the big-endian 16-bit value at offset `i`.
pub fn read_be_u16(b: &Vec<u8>, i: usize) -> (r: u16)
    requires
        i + 2 <= b@.len(),
    ensures
        r == be16(b@[i as int], b@[i as int + 1]),
{
    // Binding the length bounds it by usize::MAX, so the offsets fit.
    let n: usize = b.len();
    ((b[i] as u16) << 8) | (b[i + 1] as u16)
}

/// Reads the big-endian 32-bit value at offset `i`.
pub fn read_be_u32(b: &Vec<u8>, i: usize) -> (r: u32)
    requires
        i + 4 <= b@.len(),
    ensures
        r == be32(b@[i as int], b@[i as int + 1], b@[i as int + 2], b@[i as int + 3]),
{
    // Binding the length bounds it by usize::MAX, so the offsets fit.
    let n: usize = b.len();
    ((b[i] as u32) << 24) | ((b[i + 1] as u32) << 16) | ((b[i + 2] as u32) << 8) | (b[i + 3] as u32)
}

/// Reads the byte at offset `i`.
pub fn read_u8(b: &Vec<u8>, i: usize) -> (r: u8)
    requires
        i < b@.len(),
    ensures
        r == b@[i as int],
{
    b[i]
}

/// Appends the two big-endian bytes of a 16-bit value.
pub fn push_be_u16(out: &mut Vec<u8>, x: u16)
    ensures
        final(out)@ == old(out)@.push(u16_hi(x)).push(u16_lo(x)),
{
    assert(x >> 8 < 256 && x & 0xff < 256) by (bit_vector);
    let hi: u8 = (x >> 8) as u8;
    let lo: u8 = (x & 0xff) as u8;
    out.push(hi);
    out.push(lo);
}

/// Appends the four big-endian bytes of a 32-bit value.
pub fn push_be_u32(out: &mut Vec<u8>, x: u32)
    ensures
        final(out)@ == old(out)@.push(u32_b0(x)).push(u32_b1(x)).push(u32_b2(x)).push(u32_b3(x)),
{
    assert(x >> 24 < 256 && (x >> 16) & 0xff < 256 && (x >> 8) & 0xff < 256 && x & 0xff < 256)
        by (bit_vector);
    let b0: u8 = (x >> 24) as u8;
    let b1: u8 = ((x >> 16) & 0xff) as u8;
    let b2: u8 = ((x >> 8) & 0xff) as u8;
    let b3: u8 = (x & 0xff) as u8;
    out.push(b0);
    out.push(b1);
    out.push(b2);
    out.push(b3);
}

} // verus!
