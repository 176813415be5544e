use vstd::prelude::*;

use crate::base::ptr_is_page_aligned;
use crate::{MMap, MMapError};

verus! {

/// A page lock: the region's pages are pinned in physical memory from
/// acquisition until [`MLock::unlock`] or the end of the lock's life
/// (dropping an unlocked handle unpins silently: a destructor has no error
/// channel).  The lock holds only the region view — base address and length
/// — never a reference back to the owning handle.
pub struct MLock {
    addr: usize,
    len: usize,
}

impl MLock {
    /// The base address of the pinned range.
    pub closed spec fn lock_addr(&self) -> nat {
        self.addr as nat
    }

    /// The length in bytes of the pinned range.
    pub closed spec fn lock_len(&self) -> nat {
        self.len as nat
    }

    /// Pin the pages of the given mapping in physical memory.  The model
    /// platform has no lock limit, so acquisition always succeeds, over
    /// exactly the mapping's range.
    pub fn new<M: MMap>(handle: &M) -> (r: Result<MLock, MMapError>)
        requires
            handle.wf(),
        ensures
            r matches Ok(l) && l.lock_addr() == handle.region_addr() && l.lock_len()
                == handle.bytes().len(),
    {
        Ok(MLock { addr: handle.addr(), len: handle.len() })
    }

    /// Unpin the pages, with error visibility; the modelled unpin call
    /// always succeeds.  Consuming the lock makes a second unpin
    /// unreachable.
    pub fn unlock(self) -> (r: Result<(), MMapError>)
        ensures
            r is Ok,
    {
        Ok(())
    }
}

/// The number of residency status bytes covering `len` mapped bytes: one
/// per page, the last page counted even when only partly covered.
pub open spec fn page_count(len: nat, page_size: nat) -> nat
    recommends
        page_size >= 1,
{
    if len == 0 {
        0
    } else {
        (len - 1) as nat / page_size + 1
    }
}

/// The residency map of a region: one status byte per page it covers.
pub struct IncoreInfo {
    flags: Vec<i8>,
}

impl IncoreInfo {
    /// The per-page status bytes.
    pub closed spec fn flag_bytes(&self) -> Seq<i8> {
        self.flags@
    }

    /// Query the residency of the region view (base address, length).  The
    /// address must sit on a page boundary: a misaligned address is refused
    /// with `InvalidInput` before the residency primitive would be invoked.
    /// The model holds every mapped page in memory, so each status byte
    /// reports the page resident.
    pub fn read(addr: usize, len: usize, page_size: usize) -> (r: Result<IncoreInfo, MMapError>)
        requires
            page_size >= 1,
        ensures
            addr % page_size != 0 ==> r == Err::<IncoreInfo, MMapError>(MMapError::InvalidInput),
            addr % page_size == 0 ==> (r matches Ok(info) && info.flag_bytes() == Seq::new(
                page_count(len as nat, page_size as nat),
                |i: int| 1i8,
            )),
    {
        if !ptr_is_page_aligned(addr, page_size) {
            return Err(MMapError::InvalidInput);
        }
        let pages: usize = if len == 0 {
            0
        } else {
            (len - 1) / page_size + 1
        };
        let mut flags: Vec<i8> = Vec::new();
        let mut i: usize = 0;
        while i < pages
            invariant
                i <= pages,
                flags@ =~= Seq::new(i as nat, |j: int| 1i8),
            decreases pages - i,
        {
            flags.push(1i8);
            i = i + 1;
        }
        assert(flags@ =~= Seq::new(page_count(len as nat, page_size as nat), |i: int| 1i8));
        Ok(IncoreInfo { flags })
    }

    /// The number of pages the residency map covers.
    pub fn flagvec_len(&self) -> (n: usize)
        ensures
            n == self.flag_bytes().len(),
    {
        self.flags.len()
    }

    /// The status byte of page `pageidx`, when that page is in the map.
    pub fn page_flagbyte(&self, pageidx: usize) -> (r: Option<i8>)
        ensures
            r == (if pageidx < self.flag_bytes().len() {
                Some(self.flag_bytes()[pageidx as int])
            } else {
                Option::<i8>::None
            }),
    {
        if pageidx < self.flags.len() {
            Some(self.flags[pageidx])
        } else {
            None
        }
    }
}

} // verus!
