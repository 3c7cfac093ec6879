//! Logical-to-physical block resolution through the direct, singly,
//! doubly and triply indirect pointer chains of an inode.

use vstd::prelude::*;

use crate::codec::le32;
use crate::codec::le32_at;
use crate::error::FsError;
use crate::filesystem::Disk;
use crate::inode::InodeData;
use crate::superblock::valid_block_size;

verus! {

/// Number of 32-bit pointers an indirect block holds.
pub open spec fn spec_ptrs_per_block(bs: u32) -> int {
    bs as int / 4
}

/// Highest addressable logical index plus one: 12 direct pointers, then
/// one, two and three levels of indirection.
pub open spec fn spec_cap(bs: u32) -> int {
    let p = spec_ptrs_per_block(bs);
    12 + p + p * p + p * p * p
}

/// A pointer field read as an allocation: zero is a sparse hole.
pub open spec fn spec_allocated(x: u32) -> Option<u32> {
    if x == 0 {
        None
    } else {
        Some(x)
    }
}

/// The pointer stored at index `idx` of the block numbered `blk`.
pub open spec fn spec_ptr_at(c: Seq<u8>, bs: u32, blk: u32, idx: int) -> u32
    recommends
        blk as int * bs as int + 4 * idx + 4 <= c.len(),
{
    le32(c, blk as int * bs as int + 4 * idx)
}

/// One level of indirection: entry `i` of the block at `blk`, with a
/// zero block pointer or a zero entry both meaning a hole.
pub open spec fn spec_chain1(c: Seq<u8>, bs: u32, blk: u32, i: int) -> Option<u32> {
    if blk == 0 {
        None
    } else {
        spec_allocated(spec_ptr_at(c, bs, blk, i))
    }
}

/// Two levels of indirection for a reduced index `i < p * p`.
pub open spec fn spec_chain2(c: Seq<u8>, bs: u32, blk: u32, i: int) -> Option<u32> {
    let p = spec_ptrs_per_block(bs);
    if blk == 0 {
        None
    } else {
        spec_chain1(c, bs, spec_ptr_at(c, bs, blk, i / p), i % p)
    }
}

/// Three levels of indirection for a reduced index `i < p * p * p`.
pub open spec fn spec_chain3(c: Seq<u8>, bs: u32, blk: u32, i: int) -> Option<u32> {
    let p = spec_ptrs_per_block(bs);
    if blk == 0 {
        None
    } else {
        spec_chain2(c, bs, spec_ptr_at(c, bs, blk, i / (p * p)), i % (p * p))
    }
}

/// Where logical block `l` of the file described by `ino` lives on a
/// device with contents `c`: `None` is a sparse hole, `Some` a physical
/// block number.  Meaningful for `0 <= l < spec_cap(bs)`.
pub open spec fn spec_resolve(c: Seq<u8>, bs: u32, ino: InodeData, l: int) -> Option<u32>
    recommends
        valid_block_size(bs),
        ino.wf(),
        0 <= l < spec_cap(bs),
{
    let p = spec_ptrs_per_block(bs);
    if l < 12 {
        spec_allocated(ino.blk_direct@[l])
    } else if l < 12 + p {
        spec_chain1(c, bs, ino.blk_singly, l - 12)
    } else if l < 12 + p + p * p {
        spec_chain2(c, bs, ino.blk_doubly, l - 12 - p)
    } else {
        spec_chain3(c, bs, ino.blk_triply, l - 12 - p - p * p)
    }
}

/// Whether resolving index `l` needs no device read: the answer is
/// already in the inode — a direct pointer, or a zero top-level
/// indirect pointer for the tier `l` falls in.  On such an index the
/// resolver owes an answer; no device failure can excuse it.
pub open spec fn spec_resolve_needs_no_read(bs: u32, ino: InodeData, l: int) -> bool {
    let p = spec_ptrs_per_block(bs);
    ||| l < 12
    ||| (12 <= l < 12 + p && ino.blk_singly == 0)
    ||| (12 + p <= l < 12 + p + p * p && ino.blk_doubly == 0)
    ||| (12 + p + p * p <= l < spec_cap(bs) && ino.blk_triply == 0)
}

/// Reads the 32-bit pointer at index `idx` of the block numbered `blk`:
/// one device read of four bytes.
fn read_ptr<D: Disk>(disk: &mut D, bs: u32, blk: u32, idx: u64) -> (r: Result<u32, FsError>)
    requires
        valid_block_size(bs),
        idx < spec_ptrs_per_block(bs),
    ensures
        final(disk).contents() == old(disk).contents(),
        match r {
            Ok(v) => v == spec_ptr_at(old(disk).contents(), bs, blk, idx as int),
            Err(e) => e == FsError::DeviceError,
        },
{
    proof {
        assert(blk as int * bs as int <= 0xFFFF_FFFF * 16384) by (nonlinear_arith)
            requires
                0 <= blk as int <= 0xFFFF_FFFF,
                0 <= bs as int <= 16384,
        ;
    }
    let offset = blk as u64 * bs as u64 + 4 * idx;
    let buf = match disk.read_exact(offset, 4) {
        Ok(buf) => buf,
        Err(_) => {
            return Err(FsError::DeviceError);
        },
    };
    let v = le32_at(&buf, 0);
    proof {
        let c = old(disk).contents();
        let off = offset as int;
        assert(buf@[0] == c[off]);
        assert(buf@[1] == c[off + 1]);
        assert(buf@[2] == c[off + 2]);
        assert(buf@[3] == c[off + 3]);
    }
    Ok(v)
}

/// Walks the pointer scheme for logical block index `l`.
///
/// Index tiers: direct below 12, then one, two or three levels of
/// indirection; an index at or past `spec_cap(bs)` — and only such an
/// index — is `OutOfRange`.  A zero pointer met at any level makes the
/// result `Ok(None)`: an unallocated hole, not an error.  Each level of
/// indirection costs exactly one extra device read.
pub fn logical_to_physical<D: Disk>(disk: &mut D, bs: u32, ino: &InodeData, l: u64) -> (r: Result<
    Option<u32>,
    FsError,
>)
    requires
        valid_block_size(bs),
        ino.wf(),
    ensures
        final(disk).contents() == old(disk).contents(),
        r == Err::<Option<u32>, FsError>(FsError::OutOfRange) <==> l as int >= spec_cap(bs),
        (l as int) < spec_cap(bs) && spec_resolve_needs_no_read(bs, *ino, l as int) ==> r is Ok,
        match r {
            Ok(o) => {
                &&& (l as int) < spec_cap(bs)
                &&& o == spec_resolve(old(disk).contents(), bs, *ino, l as int)
            },
            Err(e) => e == FsError::OutOfRange || e == FsError::DeviceError,
        },
{
    let p: u64 = (bs / 4) as u64;
    proof {
        assert(p * p <= 4096 * 4096) by (nonlinear_arith)
            requires
                0 <= p <= 4096,
        ;
        assert(p * p * p <= 4096 * 4096 * 4096) by (nonlinear_arith)
            requires
                0 <= p <= 4096,
        ;
    }
    let cap = 12 + p + p * p + p * p * p;
    if l >= cap {
        return Err(FsError::OutOfRange);
    }
    if l < 12 {
        let x = ino.blk_direct[l as usize];
        return Ok(if x == 0 {
            None
        } else {
            Some(x)
        });
    }
    let j1 = l - 12;
    if j1 < p {
        if ino.blk_singly == 0 {
            return Ok(None);
        }
        let v = match read_ptr(disk, bs, ino.blk_singly, j1) {
            Ok(v) => v,
            Err(e) => {
                return Err(e);
            },
        };
        return Ok(if v == 0 {
            None
        } else {
            Some(v)
        });
    }
    let j2 = j1 - p;
    if j2 < p * p {
        if ino.blk_doubly == 0 {
            return Ok(None);
        }
        let i1 = j2 / p;
        let i2 = j2 % p;
        proof {
            assert((j2 as int) / (p as int) < p as int) by (nonlinear_arith)
                requires
                    0 <= (j2 as int) < (p as int) * (p as int),
                    p as int >= 1,
            ;
        }
        let b1 = match read_ptr(disk, bs, ino.blk_doubly, i1) {
            Ok(v) => v,
            Err(e) => {
                return Err(e);
            },
        };
        if b1 == 0 {
            return Ok(None);
        }
        let v = match read_ptr(disk, bs, b1, i2) {
            Ok(v) => v,
            Err(e) => {
                return Err(e);
            },
        };
        return Ok(if v == 0 {
            None
        } else {
            Some(v)
        });
    }
    let j3 = j2 - p * p;
    if ino.blk_triply == 0 {
        return Ok(None);
    }
    let pp = p * p;
    let i1 = j3 / pp;
    let r1 = j3 % pp;
    let i2 = r1 / p;
    let i3 = r1 % p;
    proof {
        assert((j3 as int) / ((p as int) * (p as int)) < p as int) by (nonlinear_arith)
            requires
                0 <= (j3 as int) < (p as int) * (p as int) * (p as int),
                p as int >= 1,
        ;
        assert((r1 as int) / (p as int) < p as int) by (nonlinear_arith)
            requires
                0 <= (r1 as int) < (p as int) * (p as int),
                p as int >= 1,
        ;
    }
    let b1 = match read_ptr(disk, bs, ino.blk_triply, i1) {
        Ok(v) => v,
        Err(e) => {
            return Err(e);
        },
    };
    if b1 == 0 {
        return Ok(None);
    }
    let b2 = match read_ptr(disk, bs, b1, i2) {
        Ok(v) => v,
        Err(e) => {
            return Err(e);
        },
    };
    if b2 == 0 {
        return Ok(None);
    }
    let v = match read_ptr(disk, bs, b2, i3) {
        Ok(v) => v,
        Err(e) => {
            return Err(e);
        },
    };
    Ok(
        if v == 0 {
            None
        } else {
            Some(v)
        },
    )
}

/// Reads the whole block numbered `blk` from the device.
pub fn read_block<D: Disk>(disk: &mut D, bs: u32, blk: u32) -> (r: Result<Vec<u8>, FsError>)
    requires
        valid_block_size(bs),
    ensures
        final(disk).contents() == old(disk).contents(),
        match r {
            Ok(v) => {
                &&& v@.len() == bs
                &&& blk as int * bs as int + bs as int <= old(disk).contents().len()
                &&& v@ == old(disk).contents().subrange(
                    blk as int * bs as int,
                    blk as int * bs as int + bs as int,
                )
            },
            Err(e) => e == FsError::DeviceError,
        },
{
    proof {
        assert(blk as int * bs as int <= 0xFFFF_FFFF * 16384) by (nonlinear_arith)
            requires
                0 <= blk as int <= 0xFFFF_FFFF,
                0 <= bs as int <= 16384,
        ;
    }
    match disk.read_exact(blk as u64 * bs as u64, bs as usize) {
        Ok(v) => Ok(v),
        Err(_) => Err(FsError::DeviceError),
    }
}

/// A buffer of `bs` zero bytes: what a reader substitutes for a hole.
pub fn zero_block(bs: u32) -> (v: Vec<u8>)
    ensures
        v@.len() == bs,
        forall|i: int| 0 <= i < bs ==> v@[i] == 0,
{
    let mut v: Vec<u8> = Vec::new();
    let mut i: u32 = 0;
    while i < bs
        invariant
            i <= bs,
            v@.len() == i,
            forall|j: int| 0 <= j < i ==> v@[j] == 0,
        decreases bs - i,
    {
        v.push(0);
        i = i + 1;
    }
    v
}

/// Reads logical block `l` of a file as `bs` bytes of data, substituting
/// a zero-filled buffer where the block is a sparse hole.
pub fn read_logical_block<D: Disk>(disk: &mut D, bs: u32, ino: &InodeData, l: u64) -> (r: Result<
    Vec<u8>,
    FsError,
>)
    requires
        valid_block_size(bs),
        ino.wf(),
    ensures
        final(disk).contents() == old(disk).contents(),
        r == Err::<Vec<u8>, FsError>(FsError::OutOfRange) <==> l as int >= spec_cap(bs),
        (l as int) < spec_cap(bs) && spec_resolve_needs_no_read(bs, *ino, l as int)
            && spec_resolve(old(disk).contents(), bs, *ino, l as int) is None ==> r is Ok,
        match r {
            Ok(v) => {
                &&& (l as int) < spec_cap(bs)
                &&& v@.len() == bs
                &&& spec_resolve(old(disk).contents(), bs, *ino, l as int) is None ==> forall|
                    i: int,
                |
                    0 <= i < bs ==> v@[i] == 0
                &&& spec_resolve(old(disk).contents(), bs, *ino, l as int) matches Some(pb)
                    ==> v@ == old(disk).contents().subrange(
                    pb as int * bs as int,
                    pb as int * bs as int + bs as int,
                )
            },
            Err(e) => e == FsError::OutOfRange || e == FsError::DeviceError,
        },
{
    match logical_to_physical(disk, bs, ino, l) {
        Err(e) => Err(e),
        Ok(None) => Ok(zero_block(bs)),
        Ok(Some(pb)) => read_block(disk, bs, pb),
    }
}

/// A zero direct pointer resolves to "no block" — a sparse hole, not an
/// error — at every direct index.
pub proof fn lemma_sparse_hole_direct(c: Seq<u8>, bs: u32, ino: InodeData, l: int)
    requires
        valid_block_size(bs),
        ino.wf(),
        0 <= l < 12,
        ino.blk_direct@[l] == 0,
    ensures
        spec_resolve(c, bs, ino, l) is None,
{
}

} // verus!
