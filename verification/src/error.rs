//! Error kinds of the read path.

use vstd::prelude::*;

verus! {

/// Why an operation on the filesystem failed.
///
/// `DeviceError` is fatal and propagated at once; the structural errors
/// are fatal to the operation named in their description: the first four
/// to opening the filesystem, `InvalidInode` and `OutOfRange` to a single
/// resolution call, `CorruptDirectory` to one directory's iteration.
#[derive(Clone, Copy, Debug, PartialEq, Eq, Structural)]
pub enum FsError {
    /// The underlying read failed or the requested range lies outside
    /// the device.
    DeviceError,
    /// The superblock signature is not the ext2 magic value.
    InvalidSignature,
    /// The stored block-size exponent is outside the supported range.
    UnsupportedBlockSize,
    /// The superblock's block and inode geometry is inconsistent.
    CorruptSuperblock,
    /// A required-for-read feature bit is not understood.
    UnknownRequiredFeature,
    /// The inode number is zero or beyond the last block group.
    InvalidInode,
    /// The logical block index exceeds what the pointer scheme can address.
    OutOfRange,
    /// A directory entry stream does not tile its block exactly.
    CorruptDirectory,
}

} // verus!
