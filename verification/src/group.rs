//! The block-group descriptor table: one 32-byte record per group,
//! stored contiguously in the block right after the superblock's block.

use vstd::prelude::*;

use crate::codec::{le16, le16_at, le32, le32_at};
use crate::error::FsError;
use crate::filesystem::Disk;
use crate::superblock::Superblock;

verus! {

/// On-disk size of one group descriptor record.
pub const GROUP_DESCRIPTOR_BYTES: usize = 32;

/// One block group's bookkeeping: where its bitmaps and inode table
/// live, and how much of it is free.
#[derive(Clone, Copy, Debug, PartialEq, Eq, Structural)]
pub struct GroupDescriptor {
    pub blk_bitmap_addr: u32,
    pub ino_bitmap_addr: u32,
    pub ino_table_addr: u32,
    pub blk_free: u16,
    pub ino_free: u16,
    pub dir_cnt: u16,
}

/// Division rounding up; meaningful for positive divisors.
pub open spec fn ceil_div(a: int, b: int) -> int
    recommends
        b >= 1,
{
    (a + b - 1) / b
}

/// The number of block groups the superblock describes.
pub open spec fn spec_group_count(sb: Superblock) -> int
    recommends
        sb.grp_blk_num >= 1,
{
    ceil_div(sb.blk_total as int, sb.grp_blk_num as int)
}

/// Whether the superblock's geometry is consistent: both group counts
/// exist and agree, block-wise and inode-wise.
pub open spec fn spec_geometry_ok(sb: Superblock) -> bool {
    &&& sb.grp_blk_num >= 1
    &&& sb.gpr_ino_num >= 1
    &&& ceil_div(sb.blk_total as int, sb.grp_blk_num as int) == ceil_div(
        sb.ino_total as int,
        sb.gpr_ino_num as int,
    )
}

/// The same geometry condition read directly off a raw superblock record.
pub open spec fn spec_sb_geometry_ok(b: Seq<u8>) -> bool {
    &&& le32(b, 32) >= 1
    &&& le32(b, 40) >= 1
    &&& ceil_div(le32(b, 4) as int, le32(b, 32) as int) == ceil_div(
        le32(b, 0) as int,
        le32(b, 40) as int,
    )
}

/// Absolute byte offset of the descriptor table: the first block after
/// the block that holds the superblock.  The superblock occupies bytes
/// 1024..2048, so with 1024-byte blocks the table starts at block 2,
/// and with larger blocks at block 1.
pub open spec fn spec_gd_table_offset(sb: Superblock) -> int
    recommends
        sb.blk_size <= 4,
{
    if sb.spec_block_size() == 1024 {
        2048
    } else {
        sb.spec_block_size() as int
    }
}

/// Field-for-field relation between a decoded descriptor and the raw
/// 32-byte record it came from.
pub open spec fn gd_matches(g: GroupDescriptor, b: Seq<u8>) -> bool {
    &&& g.blk_bitmap_addr == le32(b, 0)
    &&& g.ino_bitmap_addr == le32(b, 4)
    &&& g.ino_table_addr == le32(b, 8)
    &&& g.blk_free == le16(b, 12)
    &&& g.ino_free == le16(b, 14)
    &&& g.dir_cnt == le16(b, 16)
}

/// Decodes the 32-byte descriptor record at offset `off` of `b`.
pub fn decode_group_descriptor(b: &Vec<u8>, off: usize) -> (g: GroupDescriptor)
    requires
        off + GROUP_DESCRIPTOR_BYTES <= b@.len(),
    ensures
        gd_matches(g, b@.subrange(off as int, off as int + GROUP_DESCRIPTOR_BYTES as int)),
{
    // Naming the length bounds it by usize::MAX, which keeps the
    // offset arithmetic below in range.
    let n = b.len();
    let g = GroupDescriptor {
        blk_bitmap_addr: le32_at(b, off),
        ino_bitmap_addr: le32_at(b, off + 4),
        ino_table_addr: le32_at(b, off + 8),
        blk_free: le16_at(b, off + 12),
        ino_free: le16_at(b, off + 14),
        dir_cnt: le16_at(b, off + 16),
    };
    proof {
        let sub = b@.subrange(off as int, off as int + 32);
        assert forall|k: int| 0 <= k < 32 implies sub[k] == b@[off + k] by {}
    }
    g
}

/// Computes the group count from a consistent superblock.
pub fn group_count(sb: &Superblock) -> (r: u64)
    requires
        sb.grp_blk_num >= 1,
    ensures
        r == spec_group_count(*sb),
{
    (sb.blk_total as u64 + sb.grp_blk_num as u64 - 1) / sb.grp_blk_num as u64
}

/// Reads the whole descriptor table.
///
/// The geometry is checked first: a missing or disagreeing group count
/// is `CorruptSuperblock`, and exactly that case yields it.  On success
/// the table holds one decoded record per group, in on-disk order; the
/// order defines the group indices the inode resolver uses.
pub fn load_groups<D: Disk>(disk: &mut D, sb: &Superblock) -> (r: Result<
    Vec<GroupDescriptor>,
    FsError,
>)
    requires
        sb.blk_size <= 4,
    ensures
        final(disk).contents() == old(disk).contents(),
        r == Err::<Vec<GroupDescriptor>, FsError>(FsError::CorruptSuperblock)
            <==> !spec_geometry_ok(*sb),
        match r {
            Ok(v) => {
                &&& spec_geometry_ok(*sb)
                &&& v@.len() == spec_group_count(*sb)
                &&& forall|i: int|
                    0 <= i < v@.len() ==> gd_matches(
                        v@[i],
                        old(disk).contents().subrange(
                            spec_gd_table_offset(*sb) + 32 * i,
                            spec_gd_table_offset(*sb) + 32 * i + 32,
                        ),
                    )
            },
            Err(e) => e == FsError::CorruptSuperblock || e == FsError::DeviceError,
        },
{
    if sb.grp_blk_num == 0 || sb.gpr_ino_num == 0 {
        return Err(FsError::CorruptSuperblock);
    }
    let gc_blk = (sb.blk_total as u64 + sb.grp_blk_num as u64 - 1) / sb.grp_blk_num as u64;
    let gc_ino = (sb.ino_total as u64 + sb.gpr_ino_num as u64 - 1) / sb.gpr_ino_num as u64;
    if gc_blk != gc_ino {
        return Err(FsError::CorruptSuperblock);
    }
    let bs = sb.block_size();
    let base: u64 = if bs == 1024 {
        2048
    } else {
        bs as u64
    };
    proof {
        vstd::arithmetic::div_mod::lemma_div_nonincreasing(
            sb.blk_total as int + sb.grp_blk_num as int - 1,
            sb.grp_blk_num as int,
        );
    }
    let total = gc_blk * 32;
    if total > usize::MAX as u64 {
        // A table this large cannot sit in one buffer; no real device
        // read of it could succeed either.
        return Err(FsError::DeviceError);
    }
    let buf = match disk.read_exact(base, total as usize) {
        Ok(buf) => buf,
        Err(_) => {
            return Err(FsError::DeviceError);
        },
    };
    let ghost c = old(disk).contents();
    let mut v: Vec<GroupDescriptor> = Vec::new();
    let mut i: u64 = 0;
    while i < gc_blk
        invariant
            i <= gc_blk,
            gc_blk * 32 <= usize::MAX,
            buf@.len() == gc_blk * 32,
            base as int + gc_blk as int * 32 <= c.len(),
            buf@ == c.subrange(base as int, base as int + gc_blk as int * 32),
            base == spec_gd_table_offset(*sb),
            v@.len() == i,
            forall|j: int|
                0 <= j < i ==> gd_matches(
                    v@[j],
                    c.subrange(base + 32 * j, base + 32 * j + 32),
                ),
        decreases gc_blk - i,
    {
        proof {
            assert(i * 32 + 32 <= gc_blk * 32) by (nonlinear_arith)
                requires
                    i < gc_blk,
            ;
        }
        let g = decode_group_descriptor(&buf, (i * 32) as usize);
        proof {
            let off = i as int * 32;
            assert forall|k: int| 0 <= k < 32 implies #[trigger] buf@.subrange(off, off + 32)[k]
                == c.subrange(base + 32 * (i as int), base + 32 * (i as int) + 32)[k] by {
                assert(buf@[off + k] == c[base as int + off + k]);
            }
            assert(buf@.subrange(off, off + 32) =~= c.subrange(
                base + 32 * (i as int),
                base + 32 * (i as int) + 32,
            ));
        }
        v.push(g);
        i = i + 1;
    }
    Ok(v)
}

} // verus!
