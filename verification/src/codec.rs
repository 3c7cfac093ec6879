//! Little-endian field readers used by every on-disk record decoder.

use vstd::prelude::*;

verus! {

/// Little-endian 16-bit value stored at byte offset `off` of `b`.
pub open spec fn le16(b: Seq<u8>, off: int) -> u16
    recommends
        0 <= off,
        off + 2 <= b.len(),
{
    (b[off] as int + b[off + 1] as int * 0x100) as u16
}

/// Little-endian 32-bit value stored at byte offset `off` of `b`.
pub open spec fn le32(b: Seq<u8>, off: int) -> u32
    recommends
        0 <= off,
        off + 4 <= b.len(),
{
    (b[off] as int + b[off + 1] as int * 0x100 + b[off + 2] as int * 0x1_0000 + b[off
        + 3] as int * 0x100_0000) as u32
}

/// Reads the little-endian 16-bit field at offset `off` of `b`.
pub fn le16_at(b: &Vec<u8>, off: usize) -> (r: u16)
    requires
        off + 2 <= b@.len(),
    ensures
        r == le16(b@, off as int),
{
    // Naming the length bounds it by usize::MAX, which makes the
    // offset arithmetic below known to stay in range.
    let n = b.len();
    b[off] as u16 + b[off + 1] as u16 * 0x100
}

/// Reads the little-endian 32-bit field at offset `off` of `b`.
pub fn le32_at(b: &Vec<u8>, off: usize) -> (r: u32)
    requires
        off + 4 <= b@.len(),
    ensures
        r == le32(b@, off as int),
{
    // As in `le16_at`: the named length keeps the offsets in range.
    let n = b.len();
    b[off] as u32 + b[off + 1] as u32 * 0x100 + b[off + 2] as u32 * 0x1_0000 + b[off
        + 3] as u32 * 0x100_0000
}

/// Copies the `len` bytes of `b` that start at offset `start`.
pub fn read_bytes(b: &Vec<u8>, start: usize, len: usize) -> (r: Vec<u8>)
    requires
        start + len <= b@.len(),
    ensures
        r@ == b@.subrange(start as int, start as int + len as int),
{
    let n = b.len();
    let mut r: Vec<u8> = Vec::new();
    let mut i: usize = 0;
    while i < len
        invariant
            i <= len,
            start + len <= n,
            n == b@.len(),
            r@.len() == i,
            forall|j: int| 0 <= j < i ==> r@[j] == b@[start + j],
        decreases len - i,
    {
        r.push(b[start + i]);
        i = i + 1;
    }
    proof {
        assert(r@ =~= b@.subrange(start as int, start as int + len as int));
    }
    r
}

} // verus!
