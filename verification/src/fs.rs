//! Opening a filesystem: superblock, feature check and descriptor
//! table, validated in that order before anything else is read.

use vstd::prelude::*;

use crate::error::FsError;
use crate::filesystem::Disk;
use crate::group::{
    gd_matches, load_groups, spec_gd_table_offset, spec_geometry_ok, spec_group_count,
    spec_sb_geometry_ok, GroupDescriptor,
};
use crate::superblock::{
    load, sb_bytes, sb_matches, spec_sb_blk_size_log, spec_sb_decodes, spec_sb_feature_exist,
    spec_sb_sig, Superblock, EXT2_MAGIC, FEATURE_EXIST_SUPPORTED,
};

verus! {

/// An opened filesystem: the decoded superblock and the descriptor
/// table, all geometry validated.
pub struct Ext2 {
    pub super_block: Superblock,
    pub groups: Vec<GroupDescriptor>,
}

/// What `Ext2::open` guarantees of its result with respect to the
/// device contents `c` it was read from: the superblock decoded from
/// bytes 1024..2048 with a valid signature and block size, every
/// required-for-read feature understood, consistent geometry, and one
/// descriptor per group decoded from the table.
pub open spec fn ext2_matches(fs: Ext2, c: Seq<u8>) -> bool {
    &&& c.len() >= 2048
    &&& spec_sb_decodes(sb_bytes(c))
    &&& sb_matches(fs.super_block, sb_bytes(c))
    &&& fs.super_block.wf()
    &&& fs.super_block.spec_supports_read()
    &&& spec_geometry_ok(fs.super_block)
    &&& fs.groups@.len() == spec_group_count(fs.super_block)
    &&& forall|i: int|
        0 <= i < fs.groups@.len() ==> gd_matches(
            fs.groups@[i],
            c.subrange(
                spec_gd_table_offset(fs.super_block) + 32 * i,
                spec_gd_table_offset(fs.super_block) + 32 * i + 32,
            ),
        )
}

impl Ext2 {
    /// Opens the filesystem on `disk`.
    ///
    /// Reads and validates the superblock, rejects any filesystem whose
    /// required-for-read features are not understood, then reads the
    /// descriptor table.  Each structural error names exactly what the
    /// raw superblock bytes show: a wrong signature, a block-size
    /// exponent above 4, an unknown required feature, or group counts
    /// that do not agree — checked in that order, so when several
    /// conditions hold at once, the earliest decides.  Only a device
    /// that refuses a read can preempt a structural verdict.
    pub fn open<D: Disk>(disk: &mut D) -> (r: Result<Ext2, FsError>)
        ensures
            final(disk).contents() == old(disk).contents(),
            old(disk).contents().len() < 2048 ==> r == Err::<Ext2, FsError>(FsError::DeviceError),
            ({
                let b = sb_bytes(old(disk).contents());
                &&& (old(disk).contents().len() >= 2048 && spec_sb_decodes(b)
                    && spec_sb_feature_exist(b) & !FEATURE_EXIST_SUPPORTED != 0) ==> (r == Err::<
                    Ext2,
                    FsError,
                >(FsError::UnknownRequiredFeature) || r == Err::<Ext2, FsError>(
                    FsError::DeviceError,
                ))
                &&& (old(disk).contents().len() >= 2048 && spec_sb_decodes(b)
                    && spec_sb_feature_exist(b) & !FEATURE_EXIST_SUPPORTED == 0
                    && !spec_sb_geometry_ok(b)) ==> (r == Err::<Ext2, FsError>(
                    FsError::CorruptSuperblock,
                ) || r == Err::<Ext2, FsError>(FsError::DeviceError))
                &&& (old(disk).contents().len() >= 2048 && spec_sb_decodes(b)
                    && spec_sb_feature_exist(b) & !FEATURE_EXIST_SUPPORTED == 0
                    && spec_sb_geometry_ok(b)) ==> (r is Ok || r == Err::<Ext2, FsError>(
                    FsError::DeviceError,
                ))
            }),
            match r {
                Ok(fs) => ext2_matches(fs, old(disk).contents()),
                Err(e) => {
                    &&& (e == FsError::InvalidSignature ==> spec_sb_sig(
                        sb_bytes(old(disk).contents()),
                    ) != EXT2_MAGIC)
                    &&& (e == FsError::UnsupportedBlockSize ==> spec_sb_blk_size_log(
                        sb_bytes(old(disk).contents()),
                    ) > 4)
                    &&& (e == FsError::UnknownRequiredFeature ==> spec_sb_feature_exist(
                        sb_bytes(old(disk).contents()),
                    ) & !FEATURE_EXIST_SUPPORTED != 0)
                    &&& (e == FsError::CorruptSuperblock ==> !spec_sb_geometry_ok(
                        sb_bytes(old(disk).contents()),
                    ))
                    &&& (e == FsError::DeviceError || e == FsError::InvalidSignature
                        || e == FsError::UnsupportedBlockSize || e == FsError::UnknownRequiredFeature
                        || e == FsError::CorruptSuperblock)
                },
            },
    {
        let super_block = match load(disk) {
            Ok(sb) => sb,
            Err(e) => {
                return Err(e);
            },
        };
        if !super_block.supports_read() {
            return Err(FsError::UnknownRequiredFeature);
        }
        let groups = match load_groups(disk, &super_block) {
            Ok(gs) => gs,
            Err(e) => {
                return Err(e);
            },
        };
        Ok(Ext2 { super_block, groups })
    }
}

} // verus!
