//! Read-path decoder for the ext2 on-disk format.
//!
//! The crate decodes the superblock, the block-group descriptor table,
//! inode records and directory entries of an ext2 image, and resolves a
//! file's logical block indices to physical block numbers through the
//! direct / singly / doubly / triply indirect pointer scheme.  All
//! decoding is done by reading named fields at explicit byte offsets in
//! little-endian order; nothing relies on in-memory structure layout.

pub mod blocks;
pub mod codec;
pub mod dir;
pub mod error;
pub mod filesystem;
pub mod fs;
pub mod group;
pub mod inode;
pub mod superblock;
