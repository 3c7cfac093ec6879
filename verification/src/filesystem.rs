//! The block-device boundary: positioned reads over a finite byte store.

use vstd::prelude::*;

verus! {

/// Failure of the device itself: a short read or a range outside the store.
#[derive(Clone, Copy, Debug, PartialEq, Eq, Structural)]
pub struct DiskError;

/// A seekable, readable block device, addressed by absolute byte offset.
///
/// The device is modeled by `contents`, the full byte sequence it holds.
/// A successful read returns exactly the requested range of `contents`
/// and leaves the store unchanged; reads are specified by absolute
/// offset, never by a shared cursor.  A read may also fail — the device
/// decides — but it can succeed only inside the store's bounds.
pub trait Disk {
    /// The byte sequence the device holds.
    spec fn contents(&self) -> Seq<u8>;

    /// Reads exactly `len` bytes starting at absolute byte offset `offset`.
    fn read_exact(&mut self, offset: u64, len: usize) -> (r: Result<Vec<u8>, DiskError>)
        ensures
            final(self).contents() == old(self).contents(),
            match r {
                Ok(buf) => {
                    &&& buf@.len() == len
                    &&& offset as int + len as int <= old(self).contents().len()
                    &&& buf@ == old(self).contents().subrange(
                        offset as int,
                        offset as int + len as int,
                    )
                },
                Err(_) => true,
            },
    ;
}

/// An in-memory device over a byte vector; every in-bounds read succeeds.
pub struct MemDisk {
    data: Vec<u8>,
}

impl MemDisk {
    /// Wraps `data` as a device holding exactly those bytes.
    pub fn new(data: Vec<u8>) -> (r: MemDisk)
        ensures
            r.contents() == data@,
    {
        MemDisk { data }
    }

    /// The number of bytes the device holds.
    pub fn len(&self) -> (r: usize)
        ensures
            r == self.contents().len(),
    {
        self.data.len()
    }
}

impl Disk for MemDisk {
    closed spec fn contents(&self) -> Seq<u8> {
        self.data@
    }

    /// The in-memory store is static and deterministic: every read
    /// inside its bounds succeeds.
    fn read_exact(&mut self, offset: u64, len: usize) -> (r: Result<Vec<u8>, DiskError>)
        ensures
            offset as int + len as int <= old(self).contents().len() ==> r is Ok,
    {
        let n = self.data.len();
        if offset > usize::MAX as u64 {
            return Err(DiskError);
        }
        let start = offset as usize;
        if len > n || start > n - len {
            return Err(DiskError);
        }
        let mut buf: Vec<u8> = Vec::new();
        let mut i: usize = 0;
        while i < len
            invariant
                i <= len,
                start + len <= n,
                n == self.data@.len(),
                buf@.len() == i,
                forall|j: int| 0 <= j < i ==> buf@[j] == self.data@[start + j],
            decreases len - i,
        {
            buf.push(self.data[start + i]);
            i = i + 1;
        }
        proof {
            assert(buf@ =~= self.data@.subrange(start as int, start as int + len as int));
        }
        Ok(buf)
    }
}

} // verus!
