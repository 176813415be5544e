//! A typed model of operating-system virtual-memory mappings.
//!
//! The crate centres on one resource, a mapped region of memory
//! ([`base::MMapBase`]): a page-aligned address, a fixed length, the mapped
//! bytes, and the protection currently enforced on the pages.  Around it
//! stands a typestate layer of handle types (one per protection state and
//! backing origin, in [`anon`] and [`filemap`]) such that exactly one live
//! handle owns a region at any time, the handle's type says what the pages
//! allow, and every protection change is a fallible, ownership-consuming
//! conversion: on success the old handle is gone and a new one owns the same
//! region, on failure the old handle comes back untouched.
//!
//! The kernel itself is out of reach of a verifier, so its observable
//! behaviour is captured by a small [`Platform`] value (page size, whether
//! writable-and-executable pages are allowed) and the region's bytes are held
//! directly.  A thin unverified layer can drive the real system calls with
//! the flag words, lengths and validation decisions computed here.

use vstd::prelude::*;

mod anon;
mod base;
mod config;
mod filemap;
mod io;
mod mlock;

pub use anon::{AnonExecutableMMap, AnonExecutableMMapMut, AnonMMap, AnonMMapMut};
pub use filemap::{ExecFileMMap, ExecFileMMapMut, FileImage, FileMMap, FileMMapMut};
pub use io::{MMapReader, MMapWriter, SeekFrom};
pub use mlock::{IncoreInfo, MLock};
pub use base::{
    ptr_is_page_aligned, MMapBase, MS_ASYNC, MS_INVALIDATE, MS_SYNC, PROT_EXEC, PROT_READ,
    PROT_WRITE,
};
pub use config::{
    MAdviseConfig, MMapConfig, MADV_DONTNEED, MADV_FREE, MADV_RANDOM, MADV_SEQUENTIAL,
    MADV_WILLNEED, MAP_ANON, MAP_FIXED, MAP_PRIVATE, MAP_SHARED,
};

verus! {

/// Error code reported by the modelled kernel for an invalid argument.
pub const EINVAL: i32 = 22;

/// Error code reported by the modelled kernel when a protection set is refused.
pub const EACCES: i32 = 13;

/// Error code reported by the modelled kernel when no address space is left.
pub const ENOMEM: i32 = 12;

/// How an operation on a mapping can fail.
#[derive(Debug, Clone, Copy, PartialEq, Eq, Structural)]
pub enum MMapError {
    /// The mapping primitive itself reported failure; carries the OS error code.
    OsMapping(i32),
    /// A file-mapping offset points beyond the end of the file (checked before
    /// any mapping call is issued).
    InvalidOffset,
    /// Input validation failed before any mapping call was issued (a seek to a
    /// negative position, a residency query on an unaligned address).
    InvalidInput,
}

/// The observable behaviour of the platform a region lives on: the page size
/// used for all alignment decisions, and whether the kernel accepts pages
/// that are writable and executable at the same time (some platforms refuse
/// that combination unless the process holds a special entitlement).
#[derive(Debug, Clone, Copy, PartialEq, Eq, Structural)]
pub struct Platform {
    pub page_size: usize,
    pub allow_write_exec: bool,
}

impl Platform {
    /// A platform is well formed when its page size is positive.
    pub open spec fn wf(self) -> bool {
        self.page_size >= 1
    }
}

/// The four protection states a mapping can be in.  Every state includes read
/// permission; the mapping primitive is never asked for write-only pages.
#[derive(Debug, Clone, Copy, PartialEq, Eq, Structural)]
pub enum Prot {
    ReadOnly,
    ReadWrite,
    ExecReadOnly,
    ExecReadWrite,
}

/// Whether the platform accepts a request to put pages into protection state
/// `p`: everything is accepted except write-and-execute on a platform that
/// forbids it.
pub open spec fn protect_allowed(p: Prot, sys: Platform) -> bool {
    p is ExecReadWrite ==> sys.allow_write_exec
}

/// Start-address preference handed to the mapping primitive.  With no
/// preference the kernel picks the address; an explicit address is a hint,
/// honoured when it is page-aligned and nonzero, and mandatory when the
/// fixed-placement flag is set (in which case a misaligned or null address is
/// an error).
#[derive(Debug, Clone, Copy, PartialEq, Eq, Structural)]
pub enum AddrHint {
    Any,
    At(usize),
}

impl AddrHint {
    /// The raw address value passed to the mapping primitive: zero when the
    /// kernel is to choose.
    pub fn as_addr(self) -> (a: usize)
        ensures
            a == (match self {
                AddrHint::Any => 0usize,
                AddrHint::At(p) => p,
            }),
    {
        match self {
            AddrHint::Any => 0,
            AddrHint::At(p) => p,
        }
    }
}

/// A memory mapping with read access.
///
/// Every handle type over a mapped region implements this trait.  The spec
/// functions expose the model state of the underlying region — its bytes,
/// base address, protection state and platform — and the executable methods
/// are the operations every protection state allows.
pub trait MMap: Sized {
    /// The bytes the mapped region holds.
    spec fn bytes(&self) -> Seq<u8>;

    /// The page-aligned base address of the mapped region.
    spec fn region_addr(&self) -> nat;

    /// The protection currently enforced on the region's pages.
    spec fn prot_state(&self) -> Prot;

    /// The platform the region was mapped on.
    spec fn platform(&self) -> Platform;

    /// Well-formedness: established by every constructor and preserved by
    /// every operation.
    spec fn wf(&self) -> bool;

    /// Length in bytes of the mapped region.
    fn len(&self) -> (n: usize)
        requires
            self.wf(),
        ensures
            n == self.bytes().len();

    /// Base address of the mapped region.
    fn addr(&self) -> (a: usize)
        requires
            self.wf(),
        ensures
            a as nat == self.region_addr();

    /// Zero-copy view of the mapped bytes.
    fn as_slice(&self) -> (s: &[u8])
        requires
            self.wf(),
        ensures
            s@ == self.bytes();

    /// The mapped byte at index `i`.
    fn byte_at(&self, i: usize) -> (b: u8)
        requires
            self.wf(),
            i < self.bytes().len(),
        ensures
            b == self.bytes()[i as int];

    /// An owned copy of the mapped bytes.
    fn to_vec(&self) -> (v: Vec<u8>)
        requires
            self.wf(),
        ensures
            v@ == self.bytes();

    /// Flush the mapped pages to their backing store in the given mode.  The
    /// model holds the bytes directly, so its backing store is always
    /// current and the flush is accepted in every mode.
    fn sync(&self, typ: MSyncType) -> (r: Result<(), MMapError>)
        requires
            self.wf(),
        ensures
            r is Ok;

    /// Hand the kernel an access-pattern hint for the mapped range.  Advice
    /// is non-binding, and the modelled kernel accepts every hint built by
    /// [`MAdviseConfig`].
    fn advise(&self, config: MAdviseConfig) -> (r: Result<(), MMapError>)
        requires
            self.wf(),
        ensures
            r is Ok;

    /// Release the mapping, with error visibility.  Consuming the handle
    /// makes the region unreachable, so the release happens exactly once; a
    /// handle dropped without this call releases its region on the way out,
    /// silently (there is no error channel in a destructor).
    fn unmap(self) -> (r: Result<(), MMapError>)
        requires
            self.wf(),
        ensures
            r is Ok;
}

/// A memory mapping with read and write access.
pub trait MMapMut: MMap {
    /// Store byte `b` at index `i` of the mapped region.
    fn set_byte(&mut self, i: usize, b: u8)
        requires
            old(self).wf(),
            i < old(self).bytes().len(),
        ensures
            final(self).wf(),
            final(self).bytes() == old(self).bytes().update(i as int, b),
            final(self).region_addr() == old(self).region_addr(),
            final(self).prot_state() == old(self).prot_state(),
            final(self).platform() == old(self).platform();
}

/// Marker for mappings whose pages are executable.
pub trait MMapExec: MMap {

}

/// Marker for mappings whose pages are writable and executable at once.
/// Platforms may refuse this combination; the refusal surfaces as an
/// ordinary creation or conversion failure.
pub trait MMapExecMut: MMapExec + MMapMut {

}

/// Synchronization modes for flushing mapped pages to their backing store.
#[derive(Debug, Clone, Copy, PartialEq, Eq, Structural)]
pub enum MSyncType {
    /// The flush call returns immediately.
    Async,
    /// The flush call blocks until the write has been performed.
    Sync,
    /// Blocking flush that also invalidates all cached data.
    SyncInvalidate,
    /// Immediate flush that also invalidates all cached data.
    AsyncInvalidate,
    /// Only invalidate cached data; no flush flag is set.
    Invalidate,
}

} // verus!
