use ext2::error::FsError;
use ext2::filesystem::MemDisk;
use ext2::fs::Ext2;
use ext2::group::{load_groups, GROUP_DESCRIPTOR_BYTES};
use ext2::inode::INODE_BYTES;
use ext2::superblock::{
    decode_superblock, err_method_of, load, osid_of, stat_of, ErrMethod, OsId, Stat,
    ERR_METHOD_BYTES, STAT_BYTES, SUPERBLOCK_BYTES, SUPERBLOCK_EXT_BYTES,
};
use ext2::dir::DIR_ENTRY_HEADER_BYTES;

fn put_u16(buf: &mut Vec<u8>, off: usize, v: u16) {
    buf[off] = (v & 0xff) as u8;
    buf[off + 1] = (v >> 8) as u8;
}

fn put_u32(buf: &mut Vec<u8>, off: usize, v: u32) {
    buf[off] = (v & 0xff) as u8;
    buf[off + 1] = ((v >> 8) & 0xff) as u8;
    buf[off + 2] = ((v >> 16) & 0xff) as u8;
    buf[off + 3] = ((v >> 24) & 0xff) as u8;
}

/// A superblock record with the right magic and consistent geometry:
/// 16 blocks in one group of 16, 16 inodes in one group of 16,
/// 1024-byte blocks, major version 0.
fn base_sb_bytes() -> Vec<u8> {
    let mut b = vec![0u8; 1024];
    put_u32(&mut b, 0, 16); // ino_total
    put_u32(&mut b, 4, 16); // blk_total
    put_u32(&mut b, 24, 0); // blk_size log2
    put_u32(&mut b, 32, 16); // grp_blk_num
    put_u32(&mut b, 40, 16); // gpr_ino_num
    put_u16(&mut b, 56, 0xEF53); // sig
    b
}

/// A 16-block device image whose superblock is `sb`.
fn image_with_sb(sb: &[u8]) -> Vec<u8> {
    let mut img = vec![0u8; 16 * 1024];
    img[1024..2048].copy_from_slice(sb);
    img
}

#[test]
fn struct_size_check() {
    assert_eq!(2, STAT_BYTES);
    assert_eq!(2, ERR_METHOD_BYTES);
    assert_eq!(940, SUPERBLOCK_EXT_BYTES);
    assert_eq!(1024, SUPERBLOCK_BYTES);
    assert_eq!(32, GROUP_DESCRIPTOR_BYTES);
    assert_eq!(128, INODE_BYTES);
    assert_eq!(8, DIR_ENTRY_HEADER_BYTES);
}

#[test]
fn block_size_all_supported() {
    for log in 0u32..5 {
        let mut b = base_sb_bytes();
        put_u32(&mut b, 24, log);
        let sb = decode_superblock(&b).expect("valid superblock must decode");
        assert_eq!(sb.block_size(), 1024u32 << log);
    }
}

#[test]
fn block_size_log_too_large() {
    for log in [5u32, 6, 31, 0xFFFF_FFFF] {
        let mut b = base_sb_bytes();
        put_u32(&mut b, 24, log);
        assert_eq!(decode_superblock(&b).map(|_| ()), Err(FsError::UnsupportedBlockSize));
    }
}

#[test]
fn signature_round_trip() {
    let b = base_sb_bytes();
    let sb = decode_superblock(&b).expect("valid superblock must decode");
    assert_eq!(sb.sig, 0xEF53);
    assert_eq!(sb.ino_total, 16);
    assert_eq!(sb.blk_total, 16);
    for i in [56usize, 57] {
        let mut flipped = base_sb_bytes();
        flipped[i] ^= 0x40;
        assert_eq!(decode_superblock(&flipped).map(|_| ()), Err(FsError::InvalidSignature));
    }
}

#[test]
fn version0_defaults() {
    let b = base_sb_bytes();
    let sb = decode_superblock(&b).unwrap();
    assert!(sb.ext.is_none());
    assert_eq!(sb.inode_size(), 128);
    assert_eq!(sb.first_non_reserved(), 11);
    assert!(sb.supports_read());
}

#[test]
fn version1_extended_fields() {
    let mut b = base_sb_bytes();
    put_u32(&mut b, 76, 1); // version_major
    put_u32(&mut b, 84, 12); // first_non_reserve_inode
    put_u16(&mut b, 88, 256); // inode_size
    put_u32(&mut b, 92, 0x0038); // feature_opt
    put_u32(&mut b, 96, 0x0002); // feature_exist: directory types
    put_u32(&mut b, 100, 0x0001); // feature_not
    b[104] = 0xAB; // first byte of the uuid
    let sb = decode_superblock(&b).unwrap();
    let ext = sb.ext.as_ref().expect("extended fields present from version 1 on");
    assert_eq!(ext.first_non_reserve_inode, 12);
    assert_eq!(ext.inode_size, 256);
    assert_eq!(ext.feature_opt, 0x0038);
    assert_eq!(ext.feature_exist, 0x0002);
    assert_eq!(ext.feature_not, 0x0001);
    assert_eq!(ext.fsid[0], 0xAB);
    assert_eq!(ext.fsid.len(), 16);
    assert_eq!(sb.inode_size(), 256);
    assert_eq!(sb.first_non_reserved(), 12);
    assert!(sb.supports_read());
}

#[test]
fn state_and_policy_tags() {
    assert_eq!(stat_of(1), Some(Stat::Clean));
    assert_eq!(stat_of(2), Some(Stat::Error));
    assert_eq!(stat_of(0), None);
    assert_eq!(stat_of(3), None);
    assert_eq!(err_method_of(1), Some(ErrMethod::Ignore));
    assert_eq!(err_method_of(2), Some(ErrMethod::ReadOnly));
    assert_eq!(err_method_of(3), Some(ErrMethod::Panic));
    assert_eq!(err_method_of(4), None);
    assert_eq!(osid_of(0), OsId::Linux);
    assert_eq!(osid_of(1), OsId::GnuHurd);
    assert_eq!(osid_of(2), OsId::Masix);
    assert_eq!(osid_of(3), OsId::FreeBsd);
    assert_eq!(osid_of(4), OsId::Other);
    assert_eq!(osid_of(77), OsId::Other);
}

#[test]
fn load_short_device() {
    let mut disk = MemDisk::new(vec![0u8; 100]);
    assert_eq!(load(&mut disk).map(|_| ()), Err(FsError::DeviceError));
}

#[test]
fn load_reads_at_offset_1024() {
    let img = image_with_sb(&base_sb_bytes());
    let mut disk = MemDisk::new(img);
    let sb = load(&mut disk).expect("superblock at offset 1024 must load");
    assert_eq!(sb.sig, 0xEF53);
    assert_eq!(sb.blk_total, 16);
}

#[test]
fn group_count_consistency_violation() {
    // 16 blocks in groups of 16 give 1 group, but 32 inodes in groups
    // of 16 give 2: the counts disagree.
    let mut b = base_sb_bytes();
    put_u32(&mut b, 0, 32);
    let mut disk = MemDisk::new(image_with_sb(&b));
    let sb = load(&mut disk).unwrap();
    assert_eq!(load_groups(&mut disk, &sb), Err(FsError::CorruptSuperblock));
    let mut disk2 = MemDisk::new(image_with_sb(&b));
    assert_eq!(
        Ext2::open(&mut disk2).map(|_| ()),
        Err(FsError::CorruptSuperblock)
    );
}

#[test]
fn group_count_zero_divisor_rejected() {
    let mut b = base_sb_bytes();
    put_u32(&mut b, 32, 0);
    let mut disk = MemDisk::new(image_with_sb(&b));
    let sb = load(&mut disk).unwrap();
    assert_eq!(load_groups(&mut disk, &sb), Err(FsError::CorruptSuperblock));
}

#[test]
fn group_descriptor_table_decodes() {
    let mut img = image_with_sb(&base_sb_bytes());
    // One group; its descriptor sits right after the superblock's
    // block, at byte 2048.
    put_u32(&mut img, 2048, 3); // blk_bitmap_addr
    put_u32(&mut img, 2052, 4); // ino_bitmap_addr
    put_u32(&mut img, 2056, 5); // ino_table_addr
    put_u16(&mut img, 2060, 7); // blk_free
    put_u16(&mut img, 2062, 9); // ino_free
    put_u16(&mut img, 2064, 2); // dir_cnt
    let mut disk = MemDisk::new(img);
    let fs = Ext2::open(&mut disk).expect("consistent image must open");
    assert_eq!(fs.groups.len(), 1);
    assert_eq!(fs.groups[0].blk_bitmap_addr, 3);
    assert_eq!(fs.groups[0].ino_bitmap_addr, 4);
    assert_eq!(fs.groups[0].ino_table_addr, 5);
    assert_eq!(fs.groups[0].blk_free, 7);
    assert_eq!(fs.groups[0].ino_free, 9);
    assert_eq!(fs.groups[0].dir_cnt, 2);
}

#[test]
fn unknown_required_feature_rejected() {
    let mut b = base_sb_bytes();
    put_u32(&mut b, 76, 1);
    put_u32(&mut b, 96, 0x0001); // compression: not understood
    let mut disk = MemDisk::new(image_with_sb(&b));
    assert_eq!(
        Ext2::open(&mut disk).map(|_| ()),
        Err(FsError::UnknownRequiredFeature)
    );
}

#[test]
fn feature_check_precedes_geometry_check() {
    // With both an unknown required feature and inconsistent geometry,
    // the feature check comes first.
    let mut b = base_sb_bytes();
    put_u32(&mut b, 0, 32); // geometry now inconsistent
    put_u32(&mut b, 76, 1);
    put_u32(&mut b, 96, 0x0001); // compression: not understood
    let mut disk = MemDisk::new(image_with_sb(&b));
    assert_eq!(
        Ext2::open(&mut disk).map(|_| ()),
        Err(FsError::UnknownRequiredFeature)
    );
}

#[test]
fn understood_required_feature_accepted() {
    let mut b = base_sb_bytes();
    put_u32(&mut b, 76, 1);
    put_u32(&mut b, 96, 0x0002); // directory types: understood
    let mut disk = MemDisk::new(image_with_sb(&b));
    assert!(Ext2::open(&mut disk).is_ok());
}
