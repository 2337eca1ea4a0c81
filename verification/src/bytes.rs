//! Small byte-level helpers shared by the format parsers.
use vstd::prelude::*;

verus! {

/// The big-endian 16-bit value stored at `off`.
pub open spec fn be_u16_at(b: Seq<u8>, off: int) -> int {
    b[off] * 256 + b[off + 1]
}

/// The little-endian 16-bit value stored at `off`.
pub open spec fn le_u16_at(b: Seq<u8>, off: int) -> int {
    b[off] + b[off + 1] * 256
}

/// The little-endian 32-bit value stored at `off`.
pub open spec fn le_u32_at(b: Seq<u8>, off: int) -> int {
    b[off] + b[off + 1] * 0x100 + b[off + 2] * 0x1_0000 + b[off + 3] * 0x100_0000
}

/// Reads a big-endian `u16` at `off`.
pub fn read_be_u16(b: &[u8], off: usize) -> (r: u16)
    requires
        off + 2 <= b@.len(),
    ensures
        r == be_u16_at(b@, off as int),
{
    let hi: u8 = b[off];
    let lo: u8 = b[off + 1];
    (hi as u16) * 256 + (lo as u16)
}

/// Reads a little-endian `u16` at `off`.
pub fn read_le_u16(b: &[u8], off: usize) -> (r: u16)
    requires
        off + 2 <= b@.len(),
    ensures
        r == le_u16_at(b@, off as int),
{
    let lo: u8 = b[off];
    let hi: u8 = b[off + 1];
    (lo as u16) + (hi as u16) * 256
}

/// Reads a little-endian `u32` at `off`.
pub fn read_le_u32(b: &[u8], off: usize) -> (r: u32)
    requires
        off + 4 <= b@.len(),
    ensures
        r == le_u32_at(b@, off as int),
{
    let b0: u8 = b[off];
    let b1: u8 = b[off + 1];
    let b2: u8 = b[off + 2];
    let b3: u8 = b[off + 3];
    (b0 as u32) + (b1 as u32) * 0x100 + (b2 as u32) * 0x1_0000 + (b3 as u32) * 0x100_0000
}

/// Copies `src[start..end]` into a fresh vector.
pub fn copy_range(src: &[u8], start: usize, end: usize) -> (v: Vec<u8>)
    requires
        start <= end <= src@.len(),
    ensures
        v@ == src@.subrange(start as int, end as int),
{
    let mut v: Vec<u8> = Vec::new();
    let mut i: usize = start;
    while i < end
        invariant
            start <= i <= end <= src@.len(),
            v@ == src@.subrange(start as int, i as int),
        decreases end - i,
    {
        v.push(src[i]);
        i = i + 1;
    }
    v
}

/// Appends all of `src` to `dst`.
pub fn append_bytes(dst: &mut Vec<u8>, src: &[u8])
    ensures
        final(dst)@ == old(dst)@ + src@,
{
    let mut i: usize = 0;
    while i < src.len()
        invariant
            i <= src@.len(),
            dst@ == old(dst)@ + src@.subrange(0, i as int),
        decreases src@.len() - i,
    {
        dst.push(src[i]);
        i = i + 1;
    }
    assert(src@.subrange(0, src@.len() as int) =~= src@);
}

} // verus!
