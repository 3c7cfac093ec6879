//! The superblock: global geometry of the filesystem, decoded from the
//! 1024-byte record stored at byte offset 1024 of the device.

use vstd::prelude::*;

use crate::codec::{le16, le16_at, le32, le32_at, read_bytes};
use crate::error::FsError;
use crate::filesystem::Disk;

verus! {

/// Signature value every ext2 superblock carries.
pub const EXT2_MAGIC: u16 = 0xEF53;

/// Absolute byte offset of the superblock on the device.
pub const SUPERBLOCK_OFFSET: u64 = 1024;

/// Size of the whole on-disk superblock record, extended region included.
pub const SUPERBLOCK_BYTES: usize = 1024;

/// Size of the extended region of the superblock record.
pub const SUPERBLOCK_EXT_BYTES: usize = 940;

/// On-disk size of the consistency-state field.
pub const STAT_BYTES: usize = 2;

/// On-disk size of the error-policy field.
pub const ERR_METHOD_BYTES: usize = 2;

/// Required-for-read feature bits this decoder understands: only the
/// directory-entry type field.  Any other bit set in `feature_exist`
/// makes the filesystem unsafe to read.
pub const FEATURE_EXIST_SUPPORTED: u32 = 0x0002;

/// Consistency state recorded in the superblock.
#[derive(Clone, Copy, Debug, PartialEq, Eq, Structural)]
pub enum Stat {
    Clean,
    Error,
}

/// What the kernel is asked to do when an error is detected.
#[derive(Clone, Copy, Debug, PartialEq, Eq, Structural)]
pub enum ErrMethod {
    Ignore,
    ReadOnly,
    Panic,
}

/// Operating system that created the filesystem.
#[derive(Clone, Copy, Debug, PartialEq, Eq, Structural)]
pub enum OsId {
    Linux,
    GnuHurd,
    Masix,
    FreeBsd,
    Other,
}

/// The consistency state a raw field value stands for: 1 is clean, 2 is
/// errors-seen, anything else is out of range.
pub open spec fn spec_stat_of(x: u16) -> Option<Stat> {
    if x == 1 {
        Some(Stat::Clean)
    } else if x == 2 {
        Some(Stat::Error)
    } else {
        None
    }
}

/// Decodes the raw consistency-state field.
pub fn stat_of(x: u16) -> (r: Option<Stat>)
    ensures
        r == spec_stat_of(x),
{
    if x == 1 {
        Some(Stat::Clean)
    } else if x == 2 {
        Some(Stat::Error)
    } else {
        None
    }
}

/// The error policy a raw field value stands for: 1 ignore, 2 remount
/// read-only, 3 panic; anything else is out of range.
pub open spec fn spec_err_method_of(x: u16) -> Option<ErrMethod> {
    if x == 1 {
        Some(ErrMethod::Ignore)
    } else if x == 2 {
        Some(ErrMethod::ReadOnly)
    } else if x == 3 {
        Some(ErrMethod::Panic)
    } else {
        None
    }
}

/// Decodes the raw error-policy field.
pub fn err_method_of(x: u16) -> (r: Option<ErrMethod>)
    ensures
        r == spec_err_method_of(x),
{
    if x == 1 {
        Some(ErrMethod::Ignore)
    } else if x == 2 {
        Some(ErrMethod::ReadOnly)
    } else if x == 3 {
        Some(ErrMethod::Panic)
    } else {
        None
    }
}

/// The creator tag a raw field value stands for; tags beyond the known
/// ones fall under `Other`.
pub open spec fn spec_osid_of(x: u32) -> OsId {
    if x == 0 {
        OsId::Linux
    } else if x == 1 {
        OsId::GnuHurd
    } else if x == 2 {
        OsId::Masix
    } else if x == 3 {
        OsId::FreeBsd
    } else {
        OsId::Other
    }
}

/// Decodes the raw creator-OS field.
pub fn osid_of(x: u32) -> (r: OsId)
    ensures
        r == spec_osid_of(x),
{
    if x == 0 {
        OsId::Linux
    } else if x == 1 {
        OsId::GnuHurd
    } else if x == 2 {
        OsId::Masix
    } else if x == 3 {
        OsId::FreeBsd
    } else {
        OsId::Other
    }
}

/// Extended superblock fields, present only from major version 1 on.
#[derive(Clone, Debug)]
pub struct SuperblockExt {
    pub first_non_reserve_inode: u32,
    pub inode_size: u16,
    pub grp_ind_this: u16,
    pub feature_opt: u32,
    pub feature_exist: u32,
    pub feature_not: u32,
    pub fsid: Vec<u8>,
    pub v_name: Vec<u8>,
    pub path_last_mnt: Vec<u8>,
    pub compress_algo: u32,
    pub blk_prealloc_file: u8,
    pub blk_prealloc_dir: u8,
    pub journal_id: Vec<u8>,
    pub journal_inode: u32,
    pub journal_dev: u32,
    pub orphan_inode_list: u32,
}

/// The decoded superblock.  Multi-byte fields hold the raw little-endian
/// on-disk values; timestamps are kept as raw 32-bit counts.  `ext` is
/// present exactly when `version_major >= 1`.
#[derive(Clone, Debug)]
pub struct Superblock {
    pub ino_total: u32,
    pub blk_total: u32,
    pub blk_su_reserve: u32,
    pub blk_unallocated: u32,
    pub ino_unallocated: u32,
    pub blk_ind_this: u32,
    /// Block size as a log2 shift: the real size is `1024 << blk_size`.
    pub blk_size: u32,
    pub frg_size: u32,
    pub grp_blk_num: u32,
    pub grp_frg_num: u32,
    pub gpr_ino_num: u32,
    pub time_mount: u32,
    pub time_written: u32,
    pub cnt_mnt_since_last_check: u16,
    pub cnt_mnt_allow_before_check: u16,
    pub sig: u16,
    pub stat: u16,
    pub err_method: u16,
    pub version_minor: u16,
    pub time_last_check: u32,
    pub time_internal_check: u32,
    pub osid: u32,
    pub version_major: u32,
    pub uid_allow_reserved: u16,
    pub gid_allow_reserved: u16,
    pub ext: Option<SuperblockExt>,
}

/// The signature field of a raw superblock record.
pub open spec fn spec_sb_sig(b: Seq<u8>) -> u16 {
    le16(b, 56)
}

/// The block-size exponent field of a raw superblock record.
pub open spec fn spec_sb_blk_size_log(b: Seq<u8>) -> u32 {
    le32(b, 24)
}

/// The major-version field of a raw superblock record.
pub open spec fn spec_sb_version_major(b: Seq<u8>) -> u32 {
    le32(b, 76)
}

/// The required-for-read feature bits of a raw superblock record; a
/// record below major version 1 has none.
pub open spec fn spec_sb_feature_exist(b: Seq<u8>) -> u32 {
    if spec_sb_version_major(b) >= 1 {
        le32(b, 96)
    } else {
        0
    }
}

/// Whether a raw superblock record decodes at all: the signature must be
/// the ext2 magic and the block-size exponent must be at most 4.
pub open spec fn spec_sb_decodes(b: Seq<u8>) -> bool {
    spec_sb_sig(b) == EXT2_MAGIC && spec_sb_blk_size_log(b) <= 4
}

/// Field-for-field relation between decoded extended fields and the raw
/// superblock record they came from.
pub open spec fn sb_ext_matches(e: SuperblockExt, b: Seq<u8>) -> bool {
    &&& e.first_non_reserve_inode == le32(b, 84)
    &&& e.inode_size == le16(b, 88)
    &&& e.grp_ind_this == le16(b, 90)
    &&& e.feature_opt == le32(b, 92)
    &&& e.feature_exist == le32(b, 96)
    &&& e.feature_not == le32(b, 100)
    &&& e.fsid@ == b.subrange(104, 120)
    &&& e.v_name@ == b.subrange(120, 136)
    &&& e.path_last_mnt@ == b.subrange(136, 200)
    &&& e.compress_algo == le32(b, 200)
    &&& e.blk_prealloc_file == b[204]
    &&& e.blk_prealloc_dir == b[205]
    &&& e.journal_id@ == b.subrange(208, 224)
    &&& e.journal_inode == le32(b, 224)
    &&& e.journal_dev == le32(b, 228)
    &&& e.orphan_inode_list == le32(b, 232)
}

/// Field-for-field relation between a decoded superblock and the raw
/// 1024-byte record it came from.
pub open spec fn sb_matches(sb: Superblock, b: Seq<u8>) -> bool {
    &&& sb.ino_total == le32(b, 0)
    &&& sb.blk_total == le32(b, 4)
    &&& sb.blk_su_reserve == le32(b, 8)
    &&& sb.blk_unallocated == le32(b, 12)
    &&& sb.ino_unallocated == le32(b, 16)
    &&& sb.blk_ind_this == le32(b, 20)
    &&& sb.blk_size == le32(b, 24)
    &&& sb.frg_size == le32(b, 28)
    &&& sb.grp_blk_num == le32(b, 32)
    &&& sb.grp_frg_num == le32(b, 36)
    &&& sb.gpr_ino_num == le32(b, 40)
    &&& sb.time_mount == le32(b, 44)
    &&& sb.time_written == le32(b, 48)
    &&& sb.cnt_mnt_since_last_check == le16(b, 52)
    &&& sb.cnt_mnt_allow_before_check == le16(b, 54)
    &&& sb.sig == le16(b, 56)
    &&& sb.stat == le16(b, 58)
    &&& sb.err_method == le16(b, 60)
    &&& sb.version_minor == le16(b, 62)
    &&& sb.time_last_check == le32(b, 64)
    &&& sb.time_internal_check == le32(b, 68)
    &&& sb.osid == le32(b, 72)
    &&& sb.version_major == le32(b, 76)
    &&& sb.uid_allow_reserved == le16(b, 80)
    &&& sb.gid_allow_reserved == le16(b, 82)
    &&& match sb.ext {
        Some(e) => sb.version_major >= 1 && sb_ext_matches(e, b),
        None => sb.version_major == 0,
    }
}

/// A block size this format can express: 1 KiB shifted left by 0 to 4.
pub open spec fn valid_block_size(bs: u32) -> bool {
    bs == 1024 || bs == 2048 || bs == 4096 || bs == 8192 || bs == 16384
}

impl Superblock {
    /// A superblock the read path may rely on: right signature and a
    /// supported block-size exponent.  `decode_superblock` returns only
    /// such values.
    pub open spec fn wf(self) -> bool {
        self.sig == EXT2_MAGIC && self.blk_size <= 4
    }

    /// The effective block size, `1024 << blk_size`.
    pub open spec fn spec_block_size(self) -> u32
        recommends
            self.blk_size <= 4,
    {
        if self.blk_size == 0 {
            1024
        } else if self.blk_size == 1 {
            2048
        } else if self.blk_size == 2 {
            4096
        } else if self.blk_size == 3 {
            8192
        } else {
            16384
        }
    }

    /// Derives the effective block size from the stored log2 shift.
    pub fn block_size(&self) -> (r: u32)
        requires
            self.blk_size <= 4,
        ensures
            r == self.spec_block_size(),
            valid_block_size(r),
    {
        if self.blk_size == 0 {
            1024
        } else if self.blk_size == 1 {
            2048
        } else if self.blk_size == 2 {
            4096
        } else if self.blk_size == 3 {
            8192
        } else {
            16384
        }
    }

    /// The on-disk inode record size: the extended field, or 128 where
    /// the extended region is absent.
    pub open spec fn spec_inode_size(self) -> u16 {
        match self.ext {
            Some(e) => e.inode_size,
            None => 128,
        }
    }

    /// The inode record size in effect for this filesystem.
    pub fn inode_size(&self) -> (r: u16)
        ensures
            r == self.spec_inode_size(),
    {
        match &self.ext {
            Some(e) => e.inode_size,
            None => 128,
        }
    }

    /// The first inode number not reserved for the filesystem itself;
    /// 11 where the extended region is absent.
    pub open spec fn spec_first_non_reserved(self) -> u32 {
        match self.ext {
            Some(e) => e.first_non_reserve_inode,
            None => 11,
        }
    }

    /// The first non-reserved inode number in effect.
    pub fn first_non_reserved(&self) -> (r: u32)
        ensures
            r == self.spec_first_non_reserved(),
    {
        match &self.ext {
            Some(e) => e.first_non_reserve_inode,
            None => 11,
        }
    }

    /// The required-for-read feature bits; none below major version 1.
    pub open spec fn spec_feature_exist(self) -> u32 {
        match self.ext {
            Some(e) => e.feature_exist,
            None => 0,
        }
    }

    /// Whether every required-for-read feature bit is understood, so the
    /// filesystem is safe to read.
    pub open spec fn spec_supports_read(self) -> bool {
        self.spec_feature_exist() & !FEATURE_EXIST_SUPPORTED == 0
    }

    /// Tests the required-for-read feature bits against what this
    /// decoder understands.
    pub fn supports_read(&self) -> (r: bool)
        ensures
            r == self.spec_supports_read(),
    {
        let bits = match &self.ext {
            Some(e) => e.feature_exist,
            None => 0,
        };
        bits & !FEATURE_EXIST_SUPPORTED == 0
    }
}

/// Decodes a raw 1024-byte superblock record.
///
/// Returns `Ok` exactly when the signature is the ext2 magic and the
/// block-size exponent is at most 4; a wrong signature is
/// `InvalidSignature`, a right signature with an exponent above 4 is
/// `UnsupportedBlockSize`.  The extended region is decoded only from
/// major version 1 on; below it the defaults stand in.
pub fn decode_superblock(b: &Vec<u8>) -> (r: Result<Superblock, FsError>)
    requires
        b@.len() == SUPERBLOCK_BYTES,
    ensures
        r is Ok <==> spec_sb_decodes(b@),
        r matches Ok(sb) ==> sb_matches(sb, b@) && sb.wf(),
        r == Err::<Superblock, FsError>(FsError::InvalidSignature) <==> spec_sb_sig(b@)
            != EXT2_MAGIC,
        r == Err::<Superblock, FsError>(FsError::UnsupportedBlockSize) <==> (spec_sb_sig(b@)
            == EXT2_MAGIC && spec_sb_blk_size_log(b@) > 4),
{
    let sig = le16_at(b, 56);
    if sig != EXT2_MAGIC {
        return Err(FsError::InvalidSignature);
    }
    let blk_size = le32_at(b, 24);
    if blk_size > 4 {
        return Err(FsError::UnsupportedBlockSize);
    }
    let version_major = le32_at(b, 76);
    let ext = if version_major >= 1 {
        Some(
            SuperblockExt {
                first_non_reserve_inode: le32_at(b, 84),
                inode_size: le16_at(b, 88),
                grp_ind_this: le16_at(b, 90),
                feature_opt: le32_at(b, 92),
                feature_exist: le32_at(b, 96),
                feature_not: le32_at(b, 100),
                fsid: read_bytes(b, 104, 16),
                v_name: read_bytes(b, 120, 16),
                path_last_mnt: read_bytes(b, 136, 64),
                compress_algo: le32_at(b, 200),
                blk_prealloc_file: b[204],
                blk_prealloc_dir: b[205],
                journal_id: read_bytes(b, 208, 16),
                journal_inode: le32_at(b, 224),
                journal_dev: le32_at(b, 228),
                orphan_inode_list: le32_at(b, 232),
            },
        )
    } else {
        None
    };
    Ok(
        Superblock {
            ino_total: le32_at(b, 0),
            blk_total: le32_at(b, 4),
            blk_su_reserve: le32_at(b, 8),
            blk_unallocated: le32_at(b, 12),
            ino_unallocated: le32_at(b, 16),
            blk_ind_this: le32_at(b, 20),
            blk_size,
            frg_size: le32_at(b, 28),
            grp_blk_num: le32_at(b, 32),
            grp_frg_num: le32_at(b, 36),
            gpr_ino_num: le32_at(b, 40),
            time_mount: le32_at(b, 44),
            time_written: le32_at(b, 48),
            cnt_mnt_since_last_check: le16_at(b, 52),
            cnt_mnt_allow_before_check: le16_at(b, 54),
            sig,
            stat: le16_at(b, 58),
            err_method: le16_at(b, 60),
            version_minor: le16_at(b, 62),
            time_last_check: le32_at(b, 64),
            time_internal_check: le32_at(b, 68),
            osid: le32_at(b, 72),
            version_major,
            uid_allow_reserved: le16_at(b, 80),
            gid_allow_reserved: le16_at(b, 82),
            ext,
        },
    )
}

/// The 1024 bytes of the device that hold the superblock record.
pub open spec fn sb_bytes(c: Seq<u8>) -> Seq<u8>
    recommends
        c.len() >= 2048,
{
    c.subrange(1024, 2048)
}

/// Reads the superblock record from byte offset 1024 of the device and
/// decodes it.  On success the result matches the bytes read, field for
/// field; a device that cannot serve the read yields `DeviceError`.
pub fn load<D: Disk>(disk: &mut D) -> (r: Result<Superblock, FsError>)
    ensures
        final(disk).contents() == old(disk).contents(),
        old(disk).contents().len() < 2048 ==> r == Err::<Superblock, FsError>(FsError::DeviceError),
        match r {
            Ok(sb) => {
                &&& old(disk).contents().len() >= 2048
                &&& spec_sb_decodes(sb_bytes(old(disk).contents()))
                &&& sb_matches(sb, sb_bytes(old(disk).contents()))
                &&& sb.wf()
            },
            Err(e) => {
                &&& (e == FsError::InvalidSignature ==> old(disk).contents().len() >= 2048
                    && spec_sb_sig(sb_bytes(old(disk).contents())) != EXT2_MAGIC)
                &&& (e == FsError::UnsupportedBlockSize ==> old(disk).contents().len() >= 2048
                    && spec_sb_sig(sb_bytes(old(disk).contents())) == EXT2_MAGIC
                    && spec_sb_blk_size_log(sb_bytes(old(disk).contents())) > 4)
                &&& (e == FsError::DeviceError || e == FsError::InvalidSignature
                    || e == FsError::UnsupportedBlockSize)
            },
        },
{
    let buf = match disk.read_exact(SUPERBLOCK_OFFSET, SUPERBLOCK_BYTES) {
        Ok(buf) => buf,
        Err(_) => {
            return Err(FsError::DeviceError);
        },
    };
    decode_superblock(&buf)
}

/// The derived block size of any superblock that decoded is one of the
/// five values 1024, 2048, 4096, 8192 and 16384.
pub proof fn lemma_block_size_range(sb: Superblock)
    requires
        sb.blk_size <= 4,
    ensures
        valid_block_size(sb.spec_block_size()),
{
}

/// The derived block size follows the stored shift: it equals
/// `1024 << blk_size` whenever the exponent is in the supported range.
pub proof fn lemma_block_size_is_shift(sb: Superblock)
    requires
        sb.blk_size <= 4,
    ensures
        sb.spec_block_size() == 1024u32 << sb.blk_size,
{
    assert(1024u32 << 0u32 == 1024) by (bit_vector);
    assert(1024u32 << 1u32 == 2048) by (bit_vector);
    assert(1024u32 << 2u32 == 4096) by (bit_vector);
    assert(1024u32 << 3u32 == 8192) by (bit_vector);
    assert(1024u32 << 4u32 == 16384) by (bit_vector);
}

/// Changing a single byte of the signature field changes the decoded
/// signature, so a record that decoded before yields `InvalidSignature`
/// after the flip.
pub proof fn lemma_signature_byte_flip(b1: Seq<u8>, b2: Seq<u8>, i: int)
    requires
        b1.len() == 1024,
        b2.len() == 1024,
        56 <= i < 58,
        forall|j: int| 0 <= j < 1024 && j != i ==> b1[j] == b2[j],
        b1[i] != b2[i],
        spec_sb_sig(b1) == EXT2_MAGIC,
    ensures
        spec_sb_sig(b2) != EXT2_MAGIC,
        !spec_sb_decodes(b2),
{
    assert(b1[56] as int + b1[57] as int * 0x100 != b2[56] as int + b2[57] as int * 0x100);
}

} // verus!
