//! Directory entries: variable-length records packed back to back
//! inside a directory inode's data blocks.

use vstd::prelude::*;

use crate::blocks::{logical_to_physical, read_block, spec_cap, spec_resolve};
use crate::codec::{le16, le16_at, le32, le32_at, read_bytes};
use crate::error::FsError;
use crate::filesystem::Disk;
use crate::inode::InodeData;
use crate::superblock::{valid_block_size, Superblock};

verus! {

/// On-disk size of a directory entry's fixed header.
pub const DIR_ENTRY_HEADER_BYTES: usize = 8;

/// The object kind a directory entry advertises.
#[derive(Clone, Copy, Debug, PartialEq, Eq, Structural)]
pub enum DirectoryType {
    Unknown,
    RegularFile,
    Directory,
    CharacterDev,
    BlockDevice,
    Fifo,
    Socket,
    SymLink,
}

/// The kind a raw type tag stands for; tags outside the known range
/// count as `Unknown`.
pub open spec fn spec_dir_type_of(x: u8) -> DirectoryType {
    if x == 1 {
        DirectoryType::RegularFile
    } else if x == 2 {
        DirectoryType::Directory
    } else if x == 3 {
        DirectoryType::CharacterDev
    } else if x == 4 {
        DirectoryType::BlockDevice
    } else if x == 5 {
        DirectoryType::Fifo
    } else if x == 6 {
        DirectoryType::Socket
    } else if x == 7 {
        DirectoryType::SymLink
    } else {
        DirectoryType::Unknown
    }
}

/// Decodes the raw directory-type tag.
pub fn dir_type_of(x: u8) -> (r: DirectoryType)
    ensures
        r == spec_dir_type_of(x),
{
    if x == 1 {
        DirectoryType::RegularFile
    } else if x == 2 {
        DirectoryType::Directory
    } else if x == 3 {
        DirectoryType::CharacterDev
    } else if x == 4 {
        DirectoryType::BlockDevice
    } else if x == 5 {
        DirectoryType::Fifo
    } else if x == 6 {
        DirectoryType::Socket
    } else if x == 7 {
        DirectoryType::SymLink
    } else {
        DirectoryType::Unknown
    }
}

/// The fixed header of one directory entry.  `size` counts the whole
/// record — header, name and any padding or reclaimed space — and is
/// the step to the next record.
#[derive(Clone, Copy, Debug, PartialEq, Eq, Structural)]
pub struct DirectoryEntryInfo {
    pub inode: u32,
    pub size: u16,
    pub name_len: u8,
    pub dir_type: DirectoryType,
}

/// One decoded directory entry: header plus the name bytes.
#[derive(Clone, Debug)]
pub struct DirectoryEntry {
    pub info: DirectoryEntryInfo,
    pub name: Vec<u8>,
}

/// Mathematical image of a decoded directory entry.
pub struct DirEntryView {
    pub inode: u32,
    pub size: u16,
    pub name_len: u8,
    pub dir_type: DirectoryType,
    pub name: Seq<u8>,
}

impl View for DirectoryEntry {
    type V = DirEntryView;

    open spec fn view(&self) -> DirEntryView {
        DirEntryView {
            inode: self.info.inode,
            size: self.info.size,
            name_len: self.info.name_len,
            dir_type: self.info.dir_type,
            name: self.name@,
        }
    }
}

/// The entries encoded in the byte stream `b` from cursor position
/// `cur` to the end, or `None` where the stream is corrupt.
///
/// Each step needs a full 8-byte header, a record size that covers
/// header and name, and a record that ends at or before the block
/// boundary; the records must tile the block exactly.  A record whose
/// inode number is 0 is a deleted slot and yields no entry.
pub open spec fn spec_parse_entries(b: Seq<u8>, cur: int) -> Option<Seq<DirEntryView>>
    recommends
        0 <= cur <= b.len(),
    decreases b.len() - cur,
{
    if cur == b.len() {
        Some(Seq::empty())
    } else if cur < 0 || cur + 8 > b.len() {
        None
    } else {
        let inode = le32(b, cur);
        let size = le16(b, cur + 4) as int;
        let name_len = b[cur + 6] as int;
        if size < 8 + name_len || cur + size > b.len() {
            None
        } else {
            let e = DirEntryView {
                inode,
                size: le16(b, cur + 4),
                name_len: b[cur + 6],
                dir_type: spec_dir_type_of(b[cur + 7]),
                name: b.subrange(cur + 8, cur + 8 + name_len),
            };
            match spec_parse_entries(b, cur + size) {
                None => None,
                Some(rest) => if inode == 0 {
                    Some(rest)
                } else {
                    Some(seq![e] + rest)
                },
            }
        }
    }
}

/// Decodes the directory entries packed in one data block.
///
/// Returns the entries in on-disk order, skipping deleted slots, and
/// `CorruptDirectory` exactly where the record stream does not tile the
/// block: a truncated header, a record too small for its name, or a
/// record past the block boundary.
pub fn parse_dir_block(block: &Vec<u8>) -> (r: Result<Vec<DirectoryEntry>, FsError>)
    ensures
        match r {
            Ok(v) => spec_parse_entries(block@, 0) == Some(
                v@.map_values(|e: DirectoryEntry| e@),
            ),
            Err(e) => e == FsError::CorruptDirectory && spec_parse_entries(block@, 0) is None,
        },
{
    let n = block.len();
    let mut cur: usize = 0;
    let mut out: Vec<DirectoryEntry> = Vec::new();
    while cur < n
        invariant
            cur <= n,
            n == block@.len(),
            spec_parse_entries(block@, 0) == (match spec_parse_entries(block@, cur as int) {
                None => None::<Seq<DirEntryView>>,
                Some(rest) => Some(out@.map_values(|e: DirectoryEntry| e@) + rest),
            }),
        decreases n - cur,
    {
        if n - cur < 8 {
            return Err(FsError::CorruptDirectory);
        }
        let inode = le32_at(block, cur);
        let size16 = le16_at(block, cur + 4);
        let size = size16 as usize;
        let name_len8 = block[cur + 6];
        let name_len = name_len8 as usize;
        let dir_type = dir_type_of(block[cur + 7]);
        if size < 8 + name_len || size > n - cur {
            return Err(FsError::CorruptDirectory);
        }
        let name = read_bytes(block, cur + 8, name_len);
        let ghost prev = out@;
        if inode != 0 {
            out.push(
                DirectoryEntry {
                    info: DirectoryEntryInfo { inode, size: size16, name_len: name_len8, dir_type },
                    name,
                },
            );
        }
        proof {
            let b = block@;
            let c = cur as int;
            let e = DirEntryView {
                inode,
                size: le16(b, c + 4),
                name_len: b[c + 6],
                dir_type: spec_dir_type_of(b[c + 7]),
                name: b.subrange(c + 8, c + 8 + name_len as int),
            };
            if inode != 0 {
                assert(out@.last()@ == e);
                assert(out@.map_values(|x: DirectoryEntry| x@) =~= prev.map_values(
                    |x: DirectoryEntry| x@,
                ) + seq![e]);
                assert forall|rest: Seq<DirEntryView>|
                    (prev.map_values(|x: DirectoryEntry| x@) + (seq![e] + rest)) =~= (
                    out@.map_values(|x: DirectoryEntry| x@) + rest) by {}
            }
        }
        cur = cur + size;
    }
    proof {
        assert(spec_parse_entries(block@, cur as int) == Some(Seq::<DirEntryView>::empty()));
        assert(out@.map_values(|e: DirectoryEntry| e@) + Seq::<DirEntryView>::empty()
            =~= out@.map_values(|e: DirectoryEntry| e@));
    }
    Ok(out)
}

/// The entries of the whole directory, block by block from logical
/// index `l` on, stopping at the first unallocated block; `None` where
/// some block's record stream is corrupt.
pub open spec fn spec_dir_entries(c: Seq<u8>, bs: u32, ino: InodeData, l: int) -> Option<
    Seq<DirEntryView>,
>
    recommends
        valid_block_size(bs),
        ino.wf(),
        0 <= l,
    decreases spec_cap(bs) - l,
{
    if l < 0 || l >= spec_cap(bs) {
        Some(Seq::empty())
    } else {
        match spec_resolve(c, bs, ino, l) {
            None => Some(Seq::empty()),
            Some(pb) => {
                let block = c.subrange(pb as int * bs as int, pb as int * bs as int + bs as int);
                match spec_parse_entries(block, 0) {
                    None => None,
                    Some(es) => match spec_dir_entries(c, bs, ino, l + 1) {
                        None => None,
                        Some(rest) => Some(es + rest),
                    },
                }
            },
        }
    }
}

/// Walks a directory inode's data blocks and decodes every entry.
///
/// Blocks are taken in logical order from index 0 while resolution
/// yields an allocated block; the walk ends at the first hole, or at
/// the end of the addressable range, whichever comes first.  A
/// directory whose very first pointer is a hole is listed — as empty —
/// without any device read, so no device failure can be reported for
/// it.  A corrupt entry stream is fatal for this directory only.
pub fn iterate<D: Disk>(disk: &mut D, sb: &Superblock, ino: &InodeData) -> (r: Result<
    Vec<DirectoryEntry>,
    FsError,
>)
    requires
        sb.blk_size <= 4,
        ino.wf(),
    ensures
        final(disk).contents() == old(disk).contents(),
        ino.blk_direct@[0] == 0 ==> (r matches Ok(v) && v@.len() == 0),
        match r {
            Ok(v) => spec_dir_entries(old(disk).contents(), sb.spec_block_size(), *ino, 0) == Some(
                v@.map_values(|e: DirectoryEntry| e@),
            ),
            Err(e) => {
                &&& (e == FsError::CorruptDirectory ==> spec_dir_entries(
                    old(disk).contents(),
                    sb.spec_block_size(),
                    *ino,
                    0,
                ) is None)
                &&& (e == FsError::CorruptDirectory || e == FsError::DeviceError)
            },
        },
{
    let bs = sb.block_size();
    let ghost c = old(disk).contents();
    let mut out: Vec<DirectoryEntry> = Vec::new();
    let mut l: u64 = 0;
    let mut done = false;
    while !done
        invariant
            valid_block_size(bs),
            sb.blk_size <= 4,
            bs == sb.spec_block_size(),
            ino.wf(),
            c == old(disk).contents(),
            disk.contents() == c,
            0 <= l as int <= spec_cap(bs),
            forall|k: int| 0 <= k < l ==> spec_resolve(c, bs, *ino, k) is Some,
            done ==> spec_dir_entries(c, bs, *ino, l as int) == Some(Seq::<DirEntryView>::empty()),
            spec_dir_entries(c, bs, *ino, 0) == (match spec_dir_entries(c, bs, *ino, l as int) {
                None => None::<Seq<DirEntryView>>,
                Some(rest) => Some(out@.map_values(|e: DirectoryEntry| e@) + rest),
            }),
        decreases (if done { 0int } else { 1int }), spec_cap(bs) - l,
    {
        match logical_to_physical(disk, bs, ino, l) {
            Err(FsError::OutOfRange) => {
                // The pointer scheme is exhausted: no block follows.
                done = true;
            },
            Err(e) => {
                return Err(e);
            },
            Ok(None) => {
                done = true;
            },
            Ok(Some(pb)) => {
                let block = match read_block(disk, bs, pb) {
                    Ok(b) => b,
                    Err(e) => {
                        return Err(e);
                    },
                };
                let mut entries = match parse_dir_block(&block) {
                    Ok(es) => es,
                    Err(e) => {
                        return Err(e);
                    },
                };
                let ghost prev = out@;
                let ghost es = entries@.map_values(|e: DirectoryEntry| e@);
                out.append(&mut entries);
                proof {
                    assert(out@.map_values(|e: DirectoryEntry| e@) =~= prev.map_values(
                        |e: DirectoryEntry| e@,
                    ) + es);
                    assert forall|rest: Seq<DirEntryView>|
                        (prev.map_values(|e: DirectoryEntry| e@) + (es + rest)) =~= (
                        out@.map_values(|e: DirectoryEntry| e@) + rest) by {}
                }
                proof {
                    let p = crate::blocks::spec_ptrs_per_block(bs);
                    assert(p * p <= 4096 * 4096 && p * p * p <= 4096 * 4096 * 4096)
                        by (nonlinear_arith)
                        requires
                            0 <= p <= 4096,
                    ;
                }
                l = l + 1;
            },
        }
    }
    proof {
        assert(out@.map_values(|e: DirectoryEntry| e@) + Seq::<DirEntryView>::empty()
            =~= out@.map_values(|e: DirectoryEntry| e@));
        if ino.blk_direct@[0] == 0 {
            assert(spec_resolve(c, bs, *ino, 0) is None);
            assert(spec_dir_entries(c, bs, *ino, 0) == Some(Seq::<DirEntryView>::empty()));
            assert(out@.map_values(|e: DirectoryEntry| e@) =~= Seq::<DirEntryView>::empty());
        }
    }
    Ok(out)
}

} // verus!
