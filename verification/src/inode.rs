//! Inode records: fixed 128-byte metadata records addressed through
//! `(inode_number - 1)`, split into a group index and an in-group index.

use vstd::prelude::*;

use crate::codec::{le16, le16_at, le32, le32_at, read_bytes};
use crate::error::FsError;
use crate::filesystem::Disk;
use crate::group::GroupDescriptor;
use crate::superblock::Superblock;

verus! {

/// Bytes of an inode record this decoder reads.  A filesystem may store
/// larger records; the extra space only widens the stride.
pub const INODE_BYTES: usize = 128;

/// Number of direct block pointers in an inode.
pub const DIRECT_PTRS: usize = 12;

/// One decoded inode record.  A zero value in any of the block-pointer
/// fields means "unallocated" — a sparse hole — as distinct from a real
/// block address, which is at least 1.
#[derive(Clone, Debug)]
pub struct InodeData {
    pub mode: u16,
    pub uid: u16,
    pub size_low: u32,
    pub time_access: u32,
    pub time_create: u32,
    pub time_modify: u32,
    pub time_delete: u32,
    pub gid: u16,
    pub hlink: u16,
    pub sector: u32,
    pub flag: u32,
    pub osspec1: u32,
    pub blk_direct: Vec<u32>,
    pub blk_singly: u32,
    pub blk_doubly: u32,
    pub blk_triply: u32,
    pub gen: u32,
    pub ex1: u32,
    pub ex2: u32,
    pub frg: u32,
    pub osspec2: Vec<u8>,
}

impl InodeData {
    /// Shape every decoded inode has: exactly twelve direct pointers.
    pub open spec fn wf(self) -> bool {
        self.blk_direct@.len() == DIRECT_PTRS
    }
}

/// Field-for-field relation between a decoded inode and the raw
/// 128-byte record it came from.
pub open spec fn inode_matches(ino: InodeData, b: Seq<u8>) -> bool {
    &&& ino.mode == le16(b, 0)
    &&& ino.uid == le16(b, 2)
    &&& ino.size_low == le32(b, 4)
    &&& ino.time_access == le32(b, 8)
    &&& ino.time_create == le32(b, 12)
    &&& ino.time_modify == le32(b, 16)
    &&& ino.time_delete == le32(b, 20)
    &&& ino.gid == le16(b, 24)
    &&& ino.hlink == le16(b, 26)
    &&& ino.sector == le32(b, 28)
    &&& ino.flag == le32(b, 32)
    &&& ino.osspec1 == le32(b, 36)
    &&& ino.blk_direct@.len() == DIRECT_PTRS
    &&& forall|k: int| 0 <= k < 12 ==> ino.blk_direct@[k] == le32(b, 40 + 4 * k)
    &&& ino.blk_singly == le32(b, 88)
    &&& ino.blk_doubly == le32(b, 92)
    &&& ino.blk_triply == le32(b, 96)
    &&& ino.gen == le32(b, 100)
    &&& ino.ex1 == le32(b, 104)
    &&& ino.ex2 == le32(b, 108)
    &&& ino.frg == le32(b, 112)
    &&& ino.osspec2@ == b.subrange(116, 128)
}

/// Decodes a raw 128-byte inode record.
pub fn decode_inode(b: &Vec<u8>) -> (r: InodeData)
    requires
        b@.len() == INODE_BYTES,
    ensures
        inode_matches(r, b@),
        r.wf(),
{
    let mut blk_direct: Vec<u32> = Vec::new();
    let mut k: usize = 0;
    while k < 12
        invariant
            k <= 12,
            b@.len() == 128,
            blk_direct@.len() == k,
            forall|j: int| 0 <= j < k ==> blk_direct@[j] == le32(b@, 40 + 4 * j),
        decreases 12 - k,
    {
        blk_direct.push(le32_at(b, 40 + 4 * k));
        k = k + 1;
    }
    InodeData {
        mode: le16_at(b, 0),
        uid: le16_at(b, 2),
        size_low: le32_at(b, 4),
        time_access: le32_at(b, 8),
        time_create: le32_at(b, 12),
        time_modify: le32_at(b, 16),
        time_delete: le32_at(b, 20),
        gid: le16_at(b, 24),
        hlink: le16_at(b, 26),
        sector: le32_at(b, 28),
        flag: le32_at(b, 32),
        osspec1: le32_at(b, 36),
        blk_direct,
        blk_singly: le32_at(b, 88),
        blk_doubly: le32_at(b, 92),
        blk_triply: le32_at(b, 96),
        gen: le32_at(b, 100),
        ex1: le32_at(b, 104),
        ex2: le32_at(b, 108),
        frg: le32_at(b, 112),
        osspec2: read_bytes(b, 116, 12),
    }
}

/// The group an inode number belongs to.
pub open spec fn spec_group_index(sb: Superblock, inode_number: u32) -> int
    recommends
        sb.gpr_ino_num >= 1,
        inode_number >= 1,
{
    (inode_number - 1) / sb.gpr_ino_num as int
}

/// The inode's index inside its group's inode table.
pub open spec fn spec_index_in_group(sb: Superblock, inode_number: u32) -> int
    recommends
        sb.gpr_ino_num >= 1,
        inode_number >= 1,
{
    (inode_number - 1) % sb.gpr_ino_num as int
}

/// Absolute byte offset of an inode's record on the device.
pub open spec fn spec_inode_offset(
    sb: Superblock,
    groups: Seq<GroupDescriptor>,
    inode_number: u32,
) -> int
    recommends
        sb.blk_size <= 4,
        sb.gpr_ino_num >= 1,
        inode_number >= 1,
        spec_group_index(sb, inode_number) < groups.len(),
{
    groups[spec_group_index(sb, inode_number)].ino_table_addr as int * sb.spec_block_size() as int
        + spec_index_in_group(sb, inode_number) * sb.spec_inode_size() as int
}

/// Locates and decodes one inode record with exactly one device read.
///
/// Inode numbers start at 1; number 0, or a number whose group lies
/// beyond the descriptor table, is `InvalidInode` — and nothing else is.
/// On success the record decoded is the one at the computed offset of
/// the device.
pub fn resolve<D: Disk>(
    disk: &mut D,
    sb: &Superblock,
    groups: &Vec<GroupDescriptor>,
    inode_number: u32,
) -> (r: Result<InodeData, FsError>)
    requires
        sb.blk_size <= 4,
        sb.gpr_ino_num >= 1,
    ensures
        final(disk).contents() == old(disk).contents(),
        r == Err::<InodeData, FsError>(FsError::InvalidInode) <==> (inode_number == 0
            || spec_group_index(*sb, inode_number) >= groups@.len()),
        match r {
            Ok(ino) => {
                &&& inode_number >= 1
                &&& spec_group_index(*sb, inode_number) < groups@.len()
                &&& spec_inode_offset(*sb, groups@, inode_number) + 128 <= old(
                    disk,
                ).contents().len()
                &&& inode_matches(
                    ino,
                    old(disk).contents().subrange(
                        spec_inode_offset(*sb, groups@, inode_number),
                        spec_inode_offset(*sb, groups@, inode_number) + 128,
                    ),
                )
                &&& ino.wf()
            },
            Err(e) => e == FsError::InvalidInode || e == FsError::DeviceError,
        },
{
    if inode_number == 0 {
        return Err(FsError::InvalidInode);
    }
    let group_index = (inode_number - 1) / sb.gpr_ino_num;
    let index_in_group = (inode_number - 1) % sb.gpr_ino_num;
    if group_index as usize >= groups.len() {
        return Err(FsError::InvalidInode);
    }
    let table_addr = groups[group_index as usize].ino_table_addr;
    let bs = sb.block_size();
    let record_size = sb.inode_size();
    proof {
        assert(table_addr as int * bs as int <= 0xFFFF_FFFF * 16384) by (nonlinear_arith)
            requires
                0 <= table_addr as int <= 0xFFFF_FFFF,
                0 <= bs as int <= 16384,
        ;
        assert(index_in_group as int * record_size as int <= 0xFFFF_FFFF * 0xFFFF)
            by (nonlinear_arith)
            requires
                0 <= index_in_group as int <= 0xFFFF_FFFF,
                0 <= record_size as int <= 0xFFFF,
        ;
    }
    let offset = table_addr as u64 * bs as u64 + index_in_group as u64 * record_size as u64;
    let buf = match disk.read_exact(offset, INODE_BYTES) {
        Ok(buf) => buf,
        Err(_) => {
            return Err(FsError::DeviceError);
        },
    };
    Ok(decode_inode(&buf))
}

} // verus!
