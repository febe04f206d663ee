//! The host's file-side collaborators, as this layer sees them: the inode
//! and open-file context handed to every operation, and the sink that
//! fdinfo reporting writes into.
//!
//! Only the fields this layer's contracts depend on are modeled; the rest
//! of the host's file abstraction is out of scope.

use vstd::prelude::*;

verus! {

/// The largest file size an opener without large-file support may see.
pub const MAX_NON_LFS: u64 = 0x7FFF_FFFF;

/// The inode the device node lives on, as far as this layer reads it.
#[derive(Copy, Clone, PartialEq, Eq, Structural, Debug)]
pub struct Inode {
    /// The size recorded on the inode.
    pub size: u64,
}

/// The open-file context the host passes to every operation.
#[derive(Copy, Clone, PartialEq, Eq, Structural, Debug)]
pub struct File {
    /// Whether the opener asked for large-file support.
    pub large_file: bool,
}

/// Whether the host-level initialization step that precedes author code
/// on open accepts this file: an opener without large-file support may
/// not open a file whose size needs more than 31 bits.
pub open spec fn file_open_ok(inode: Inode, file: File) -> bool {
    file.large_file || inode.size <= MAX_NON_LFS
}

/// The host-level initialization step that precedes author code on open.
///
/// Returns `0` when [`file_open_ok`] holds and [`Error::Overflow`]'s
/// code otherwise.
pub fn generic_file_open(inode: &Inode, file: &File) -> (r: i32)
    ensures
        r == 0 <==> file_open_ok(*inode, *file),
        r != 0 ==> r as int == crate::error::Error::Overflow.spec_errno(),
{
    if !file.large_file && inode.size > MAX_NON_LFS {
        crate::error::Error::Overflow.to_errno()
    } else {
        0
    }
}

/// The sink that fdinfo reporting writes diagnostic output into.
///
/// The sink only accumulates bytes; it has no failure channel, matching
/// the host interface, which gives status reporting no way to fail.
pub struct SeqFile {
    data: Vec<u8>,
}

impl View for SeqFile {
    type V = Seq<u8>;

    closed spec fn view(&self) -> Seq<u8> {
        self.data@
    }
}

impl SeqFile {
    /// An empty sink.
    pub fn new() -> (m: SeqFile)
        ensures
            m@ == Seq::<u8>::empty(),
    {
        SeqFile { data: Vec::new() }
    }

    /// Append `bytes` to the sink.
    pub fn write_bytes(&mut self, bytes: &[u8])
        ensures
            final(self)@ == old(self)@ + bytes@,
    {
        let mut i: usize = 0;
        while i < bytes.len()
            invariant
                i <= bytes@.len(),
                self@ == old(self)@ + bytes@.subrange(0, i as int),
            decreases bytes@.len() - i,
        {
            self.data.push(bytes[i]);
            i = i + 1;
            proof {
                assert(self@ =~= old(self)@ + bytes@.subrange(0, i as int));
            }
        }
        proof {
            assert(self@ =~= old(self)@ + bytes@);
        }
    }

    /// The bytes written so far.
    pub fn contents(&self) -> (v: &Vec<u8>)
        ensures
            v@ == self@,
    {
        &self.data
    }
}

} // verus!
