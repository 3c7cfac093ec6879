use ext2::dir::{iterate, parse_dir_block, DirectoryType};
use ext2::error::FsError;
use ext2::filesystem::MemDisk;
use ext2::fs::Ext2;
use ext2::inode::resolve;

fn dt_put_u16(buf: &mut Vec<u8>, off: usize, v: u16) {
    buf[off] = (v & 0xff) as u8;
    buf[off + 1] = (v >> 8) as u8;
}

fn dt_put_u32(buf: &mut Vec<u8>, off: usize, v: u32) {
    buf[off] = (v & 0xff) as u8;
    buf[off + 1] = ((v >> 8) & 0xff) as u8;
    buf[off + 2] = ((v >> 16) & 0xff) as u8;
    buf[off + 3] = ((v >> 24) & 0xff) as u8;
}

/// Writes one directory entry record at `off` and returns the offset
/// just past it.
fn dt_put_entry(
    buf: &mut Vec<u8>,
    off: usize,
    inode: u32,
    size: u16,
    dir_type: u8,
    name: &[u8],
) -> usize {
    dt_put_u32(buf, off, inode);
    dt_put_u16(buf, off + 4, size);
    buf[off + 6] = name.len() as u8;
    buf[off + 7] = dir_type;
    buf[off + 8..off + 8 + name.len()].copy_from_slice(name);
    off + size as usize
}

/// One 1024-byte directory block holding ".", ".." and "hello.txt",
/// whose record sizes sum to the block size exactly.
fn three_entry_block() -> Vec<u8> {
    let mut b = vec![0u8; 1024];
    let off = dt_put_entry(&mut b, 0, 2, 12, 2, b".");
    let off = dt_put_entry(&mut b, off, 2, 12, 2, b"..");
    dt_put_entry(&mut b, off, 11, 1000, 1, b"hello.txt");
    b
}

#[test]
fn directory_round_trip() {
    let block = three_entry_block();
    let entries = parse_dir_block(&block).expect("a tiled block must parse");
    assert_eq!(entries.len(), 3);
    assert_eq!(entries[0].info.inode, 2);
    assert_eq!(entries[0].name, b".".to_vec());
    assert_eq!(entries[0].info.dir_type, DirectoryType::Directory);
    assert_eq!(entries[0].info.size, 12);
    assert_eq!(entries[1].info.inode, 2);
    assert_eq!(entries[1].name, b"..".to_vec());
    assert_eq!(entries[1].info.dir_type, DirectoryType::Directory);
    assert_eq!(entries[2].info.inode, 11);
    assert_eq!(entries[2].name, b"hello.txt".to_vec());
    assert_eq!(entries[2].info.dir_type, DirectoryType::RegularFile);
    assert_eq!(entries[2].info.name_len, 9);
}

#[test]
fn directory_overrun_rejected() {
    // Inflating the final record's size past the block boundary is
    // corruption.
    let mut block = three_entry_block();
    dt_put_u16(&mut block, 24 + 4, 1001);
    assert_eq!(parse_dir_block(&block).map(|_| ()), Err(FsError::CorruptDirectory));
}

#[test]
fn directory_underrun_rejected() {
    // A final record that stops short of the boundary leaves a tail
    // too small for a header.
    let mut block = three_entry_block();
    dt_put_u16(&mut block, 24 + 4, 999);
    assert_eq!(parse_dir_block(&block).map(|_| ()), Err(FsError::CorruptDirectory));
}

#[test]
fn directory_record_smaller_than_name_rejected() {
    let mut block = three_entry_block();
    // The last record claims 9 name bytes inside a 10-byte record.
    dt_put_u16(&mut block, 24 + 4, 10);
    assert_eq!(parse_dir_block(&block).map(|_| ()), Err(FsError::CorruptDirectory));
}

#[test]
fn deleted_entry_skipped() {
    let mut b = vec![0u8; 1024];
    let off = dt_put_entry(&mut b, 0, 2, 12, 2, b".");
    // A deleted slot: inode 0, space reclaimed into the record size.
    let off = dt_put_entry(&mut b, off, 0, 512, 0, b"");
    dt_put_entry(&mut b, off, 7, 500, 1, b"kept");
    let entries = parse_dir_block(&b).unwrap();
    assert_eq!(entries.len(), 2);
    assert_eq!(entries[0].info.inode, 2);
    assert_eq!(entries[1].info.inode, 7);
    assert_eq!(entries[1].name, b"kept".to_vec());
}

#[test]
fn empty_block_parses_empty() {
    // A single deleted record spanning the whole block yields nothing.
    let mut b = vec![0u8; 1024];
    dt_put_entry(&mut b, 0, 0, 1024, 0, b"");
    let entries = parse_dir_block(&b).unwrap();
    assert_eq!(entries.len(), 0);
}

/// A minimal crafted image: block size 1024, one group of 16 inodes,
/// the group's inode table at block 5, inode 2 a directory whose one
/// data block is block 9 and holds ".", ".." and "hello.txt".
fn minimal_image() -> Vec<u8> {
    let mut img = vec![0u8; 16 * 1024];
    // Superblock at byte 1024.
    dt_put_u32(&mut img, 1024, 16); // ino_total
    dt_put_u32(&mut img, 1024 + 4, 16); // blk_total
    dt_put_u32(&mut img, 1024 + 24, 0); // block size 1024
    dt_put_u32(&mut img, 1024 + 32, 16); // grp_blk_num
    dt_put_u32(&mut img, 1024 + 40, 16); // gpr_ino_num
    dt_put_u16(&mut img, 1024 + 56, 0xEF53); // sig
    // One group descriptor at byte 2048.
    dt_put_u32(&mut img, 2048, 3); // blk_bitmap_addr
    dt_put_u32(&mut img, 2048 + 4, 4); // ino_bitmap_addr
    dt_put_u32(&mut img, 2048 + 8, 5); // ino_table_addr
    // Inode 2: record 1 of the table, at 5 * 1024 + 128.
    let ino2 = 5 * 1024 + 128;
    dt_put_u16(&mut img, ino2, 0x4000); // mode: directory
    dt_put_u32(&mut img, ino2 + 4, 1024); // size_low
    dt_put_u32(&mut img, ino2 + 40, 9); // first direct pointer: block 9
    // The directory's data block.
    let blk = 9 * 1024;
    let off = dt_put_entry(&mut img, blk, 2, 12, 2, b".");
    let off = dt_put_entry(&mut img, off, 2, 12, 2, b"..");
    dt_put_entry(&mut img, off, 11, 1000, 1, b"hello.txt");
    img
}

#[test]
fn end_to_end_root_listing() {
    let mut disk = MemDisk::new(minimal_image());
    let fs = Ext2::open(&mut disk).expect("the crafted image must open");
    assert_eq!(fs.super_block.block_size(), 1024);
    assert_eq!(fs.groups.len(), 1);
    assert_eq!(fs.groups[0].ino_table_addr, 5);
    let ino = resolve(&mut disk, &fs.super_block, &fs.groups, 2)
        .expect("inode 2 must resolve");
    assert_eq!(ino.mode, 0x4000);
    assert_eq!(ino.blk_direct[0], 9);
    let entries = iterate(&mut disk, &fs.super_block, &ino)
        .expect("the directory must iterate");
    assert_eq!(entries.len(), 3);
    assert_eq!(entries[0].info.inode, 2);
    assert_eq!(entries[0].name, b".".to_vec());
    assert_eq!(entries[1].info.inode, 2);
    assert_eq!(entries[1].name, b"..".to_vec());
    assert_eq!(entries[2].info.inode, 11);
    assert_eq!(entries[2].name, b"hello.txt".to_vec());
    assert_eq!(entries[2].info.dir_type, DirectoryType::RegularFile);
}

#[test]
fn empty_directory_lists_empty() {
    let mut disk = MemDisk::new(minimal_image());
    let fs = Ext2::open(&mut disk).expect("the crafted image must open");
    // Inode 3's record is all zeros: its first pointer is a hole, so
    // the listing is empty and no data block is ever read.
    let ino = resolve(&mut disk, &fs.super_block, &fs.groups, 3).unwrap();
    assert_eq!(ino.blk_direct[0], 0);
    let entries = iterate(&mut disk, &fs.super_block, &ino).unwrap();
    assert!(entries.is_empty());
}

#[test]
fn corrupt_directory_is_local_to_iteration() {
    let mut img = minimal_image();
    // Overrun the final record of the directory block.
    dt_put_u16(&mut img, 9 * 1024 + 24 + 4, 1001);
    let mut disk = MemDisk::new(img);
    let fs = Ext2::open(&mut disk).expect("the image still opens");
    let ino = resolve(&mut disk, &fs.super_block, &fs.groups, 2).unwrap();
    assert_eq!(
        iterate(&mut disk, &fs.super_block, &ino).map(|_| ()),
        Err(FsError::CorruptDirectory)
    );
    // The filesystem handle and other inodes stay usable.
    assert!(resolve(&mut disk, &fs.super_block, &fs.groups, 1).is_ok());
}
