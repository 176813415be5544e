use vstd::prelude::*;

use crate::config::{MAP_FIXED, MAP_PRIVATE, MAP_SHARED};
use crate::{
    protect_allowed, AddrHint, MAdviseConfig, MMap, MMapError, MMapExec, MMapExecMut, MMapMut,
    MSyncType, Platform, Prot, EACCES, EINVAL, ENOMEM,
};

verus! {

/// Read permission bit of a protection flag word.
pub const PROT_READ: i32 = 1;

/// Write permission bit of a protection flag word.
pub const PROT_WRITE: i32 = 2;

/// Execute permission bit of a protection flag word.
pub const PROT_EXEC: i32 = 4;

/// Flush-immediately bit of a page-flush flag word.
pub const MS_ASYNC: i32 = 1;

/// Invalidate-cached-data bit of a page-flush flag word.
pub const MS_INVALIDATE: i32 = 2;

/// Flush-and-block bit of a page-flush flag word.
pub const MS_SYNC: i32 = 4;

/// The protection flag word for each protection state.  Every state includes
/// read permission, and the writable-and-executable state carries both the
/// write and the execute bit.
pub open spec fn prot_flags(p: Prot) -> i32 {
    match p {
        Prot::ReadOnly => PROT_READ,
        Prot::ReadWrite => PROT_READ | PROT_WRITE,
        Prot::ExecReadOnly => PROT_READ | PROT_EXEC,
        Prot::ExecReadWrite => PROT_READ | PROT_WRITE | PROT_EXEC,
    }
}

impl Prot {
    /// The protection flag word handed to the mapping and protection-change
    /// primitives for this state.
    pub fn as_flags(self) -> (f: i32)
        ensures
            f == prot_flags(self),
    {
        match self {
            Prot::ReadOnly => PROT_READ,
            Prot::ReadWrite => PROT_READ | PROT_WRITE,
            Prot::ExecReadOnly => PROT_READ | PROT_EXEC,
            Prot::ExecReadWrite => PROT_READ | PROT_WRITE | PROT_EXEC,
        }
    }
}

/// The flag word for each flush mode: a union of the flush bit (immediate or
/// blocking) and the invalidation bit.
pub open spec fn sync_flag(t: MSyncType) -> i32 {
    match t {
        MSyncType::Async => MS_ASYNC,
        MSyncType::Sync => MS_SYNC,
        MSyncType::SyncInvalidate => MS_SYNC | MS_INVALIDATE,
        MSyncType::AsyncInvalidate => MS_ASYNC | MS_INVALIDATE,
        MSyncType::Invalidate => MS_INVALIDATE,
    }
}

impl MSyncType {
    /// The flag word handed to the page-flush primitive for this mode.
    pub fn as_flag(&self) -> (f: i32)
        ensures
            f == sync_flag(*self),
    {
        match *self {
            MSyncType::Async => MS_ASYNC,
            MSyncType::Sync => MS_SYNC,
            MSyncType::SyncInvalidate => MS_SYNC | MS_INVALIDATE,
            MSyncType::AsyncInvalidate => MS_ASYNC | MS_INVALIDATE,
            MSyncType::Invalidate => MS_INVALIDATE,
        }
    }
}

/// Whether a fixed-placement request names a usable address: explicit,
/// nonzero and page-aligned.
pub open spec fn fixed_hint_ok(hint: AddrHint, sys: Platform) -> bool {
    hint matches AddrHint::At(a) && a != 0 && a % sys.page_size == 0
}

/// The base address the modelled kernel assigns to a new mapping: an
/// explicit, nonzero, page-aligned hint is honoured; otherwise the kernel
/// places the region at the lowest page boundary it hands out.
pub open spec fn resolve_addr(hint: AddrHint, sys: Platform) -> nat {
    match hint {
        AddrHint::Any => sys.page_size as nat,
        AddrHint::At(a) => if a != 0 && a % sys.page_size == 0 {
            a as nat
        } else {
            sys.page_size as nat
        },
    }
}

/// Why the modelled kernel refuses a mapping request, or `None` when it is
/// accepted.  The checks, in order:
/// - a zero-length mapping is an invalid argument;
/// - the flag word must ask for a shared or a private mapping;
/// - a file offset must be a multiple of the page size;
/// - a fixed placement must name a nonzero page-aligned address;
/// - writable-and-executable pages only where the platform permits them;
/// - the region must fit into the address space.
pub open spec fn mmap_denied(
    hint: AddrHint,
    map_len: nat,
    p: Prot,
    flags: i32,
    off: nat,
    sys: Platform,
) -> Option<MMapError> {
    if map_len == 0 {
        Some(MMapError::OsMapping(EINVAL))
    } else if flags & (MAP_SHARED | MAP_PRIVATE) == 0 {
        Some(MMapError::OsMapping(EINVAL))
    } else if off % (sys.page_size as nat) != 0 {
        Some(MMapError::OsMapping(EINVAL))
    } else if flags & MAP_FIXED != 0 && !fixed_hint_ok(hint, sys) {
        Some(MMapError::OsMapping(EINVAL))
    } else if !protect_allowed(p, sys) {
        Some(MMapError::OsMapping(EACCES))
    } else if resolve_addr(hint, sys) + map_len > usize::MAX {
        Some(MMapError::OsMapping(ENOMEM))
    } else {
        None
    }
}

/// Whether `addr` falls on a page boundary for pages of size `page_size`.
pub fn ptr_is_page_aligned(addr: usize, page_size: usize) -> (r: bool)
    requires
        page_size >= 1,
    ensures
        r == (addr % page_size == 0),
{
    addr % page_size == 0
}

/// A vector of `n` zero bytes: the content of freshly mapped anonymous pages.
pub(crate) fn zeroed(n: usize) -> (v: Vec<u8>)
    ensures
        v@ == Seq::new(n as nat, |i: int| 0u8),
{
    let mut v: Vec<u8> = Vec::new();
    let mut i: usize = 0;
    while i < n
        invariant
            i <= n,
            v@ =~= Seq::new(i as nat, |j: int| 0u8),
        decreases n - i,
    {
        v.push(0u8);
        i = i + 1;
    }
    assert(v@ =~= Seq::new(n as nat, |i: int| 0u8));
    v
}

/// One mapped region of memory: the resource the rest of the crate manages.
///
/// A region owns its mapped bytes, the page-aligned base address the kernel
/// assigned, the protection currently enforced on its pages (informational
/// here: the authoritative state is the typestate wrapper holding the
/// region), and the platform it was created on.  A region is created by
/// [`MMapBase::new`] and only ever changed by [`MMapBase::protect`]; when the
/// owning handle goes out of scope without an explicit `unmap`, the region is
/// released with it, so release happens exactly once on every path.
#[derive(Debug)]
pub struct MMapBase {
    data: Vec<u8>,
    addr: usize,
    prot: Prot,
    sys: Platform,
}

impl MMapBase {
    /// The same region with its pages in protection state `p`: what a
    /// successful protection change leaves behind.
    pub closed spec fn with_prot(self, p: Prot) -> MMapBase {
        MMapBase { prot: p, ..self }
    }

    /// Build a region from a mapping request.  `contents` is what the mapped
    /// pages hold when the request is accepted (zeroes for anonymous pages,
    /// file bytes for a file mapping); its length is the requested mapping
    /// length.  The request is refused exactly when [`mmap_denied`] says so,
    /// with the error it gives, and a refused request has no effect.
    pub fn new(
        addr_hint: AddrHint,
        contents: Vec<u8>,
        prot: Prot,
        flags: i32,
        map_off: usize,
        sys: Platform,
    ) -> (r: Result<MMapBase, MMapError>)
        requires
            sys.wf(),
        ensures
            match r {
                Ok(m) => {
                    &&& mmap_denied(addr_hint, contents@.len(), prot, flags, map_off as nat, sys)
                        is None
                    &&& m.wf()
                    &&& m.bytes() == contents@
                    &&& m.region_addr() == resolve_addr(addr_hint, sys)
                    &&& m.prot_state() == prot
                    &&& m.platform() == sys
                },
                Err(e) => mmap_denied(
                    addr_hint,
                    contents@.len(),
                    prot,
                    flags,
                    map_off as nat,
                    sys,
                ) == Some(e),
            },
    {
        if contents.len() == 0 {
            return Err(MMapError::OsMapping(EINVAL));
        }
        if flags & (MAP_SHARED | MAP_PRIVATE) == 0 {
            return Err(MMapError::OsMapping(EINVAL));
        }
        if map_off % sys.page_size != 0 {
            return Err(MMapError::OsMapping(EINVAL));
        }
        if flags & MAP_FIXED != 0 {
            let fixed_ok = match addr_hint {
                AddrHint::Any => false,
                AddrHint::At(a) => a != 0 && a % sys.page_size == 0,
            };
            if !fixed_ok {
                return Err(MMapError::OsMapping(EINVAL));
            }
        }
        let write_exec = match prot {
            Prot::ExecReadWrite => true,
            _ => false,
        };
        if write_exec && !sys.allow_write_exec {
            return Err(MMapError::OsMapping(EACCES));
        }
        let addr = Self::place(addr_hint, sys);
        if contents.len() > usize::MAX - addr {
            return Err(MMapError::OsMapping(ENOMEM));
        }
        Ok(MMapBase { data: contents, addr, prot, sys })
    }

    /// Ownership-consuming protection change: the step every typestate
    /// conversion is built on.  On success the region moves on with its
    /// pages in state `p` and nothing else changed; on failure the region
    /// comes back exactly as it went in, so the caller can rebuild the
    /// source handle and no resource is leaked.
    pub(crate) fn try_protect(self, p: Prot) -> (r: Result<MMapBase, (MMapError, MMapBase)>)
        requires
            self.wf(),
        ensures
            match r {
                Ok(m) => {
                    &&& protect_allowed(p, self.platform())
                    &&& m == self.with_prot(p)
                    &&& m.wf()
                    &&& m.bytes() == self.bytes()
                    &&& m.region_addr() == self.region_addr()
                    &&& m.platform() == self.platform()
                    &&& m.prot_state() == p
                },
                Err((e, m)) => {
                    &&& !protect_allowed(p, self.platform())
                    &&& e == MMapError::OsMapping(EACCES)
                    &&& m == self
                },
            },
    {
        let mut m = self;
        match m.protect(p) {
            Ok(()) => Ok(m),
            Err(e) => Err((e, m)),
        }
    }

    /// The address assignment of [`resolve_addr`], executed.
    fn place(addr_hint: AddrHint, sys: Platform) -> (a: usize)
        requires
            sys.wf(),
        ensures
            a as nat == resolve_addr(addr_hint, sys),
            a >= 1,
            a % sys.page_size == 0,
    {
        proof {
            assert(sys.page_size % sys.page_size == 0) by (nonlinear_arith)
                requires
                    sys.page_size >= 1,
            ;
        }
        match addr_hint {
            AddrHint::Any => sys.page_size,
            AddrHint::At(a) => {
                if a != 0 && a % sys.page_size == 0 {
                    a
                } else {
                    sys.page_size
                }
            },
        }
    }

    /// Length in bytes of the mapped region.
    pub fn len(&self) -> (n: usize)
        ensures
            n == self.bytes().len(),
    {
        self.data.len()
    }

    /// Change the protection of the whole mapped range to `p`.  The request
    /// is accepted exactly when the platform allows state `p`
    /// ([`protect_allowed`]); a refused request reports `EACCES` and leaves
    /// the region exactly as it was, bytes and protection included.
    pub fn protect(&mut self, p: Prot) -> (r: Result<(), MMapError>)
        requires
            old(self).wf(),
        ensures
            r is Ok <==> protect_allowed(p, old(self).platform()),
            r is Ok ==> *final(self) == old(self).with_prot(p),
            r is Err ==> *final(self) == *old(self) && r == Err::<(), MMapError>(
                MMapError::OsMapping(EACCES),
            ),
            final(self).wf(),
            final(self).bytes() == old(self).bytes(),
            final(self).region_addr() == old(self).region_addr(),
            final(self).platform() == old(self).platform(),
            r is Ok ==> final(self).prot_state() == p,
    {
        let write_exec = match p {
            Prot::ExecReadWrite => true,
            _ => false,
        };
        if write_exec && !self.sys.allow_write_exec {
            return Err(MMapError::OsMapping(EACCES));
        }
        self.prot = p;
        Ok(())
    }
}

impl MMap for MMapBase {
    closed spec fn bytes(&self) -> Seq<u8> {
        self.data@
    }

    closed spec fn region_addr(&self) -> nat {
        self.addr as nat
    }

    closed spec fn prot_state(&self) -> Prot {
        self.prot
    }

    closed spec fn platform(&self) -> Platform {
        self.sys
    }

    closed spec fn wf(&self) -> bool {
        &&& self.sys.wf()
        &&& self.data@.len() >= 1
        &&& self.addr >= 1
        &&& self.addr % self.sys.page_size == 0
        &&& self.addr + self.data@.len() <= usize::MAX
    }

    fn len(&self) -> usize {
        self.data.len()
    }

    fn addr(&self) -> usize {
        self.addr
    }

    fn as_slice(&self) -> &[u8] {
        self.data.as_slice()
    }

    fn byte_at(&self, i: usize) -> u8 {
        self.data[i]
    }

    fn to_vec(&self) -> Vec<u8> {
        let mut v: Vec<u8> = Vec::new();
        let mut i: usize = 0;
        while i < self.data.len()
            invariant
                i <= self.data@.len(),
                v@ =~= self.data@.subrange(0, i as int),
            decreases self.data@.len() - i,
        {
            v.push(self.data[i]);
            assert(v@ =~= self.data@.subrange(0, i + 1));
            i = i + 1;
        }
        assert(v@ =~= self.data@);
        v
    }

    fn sync(&self, _typ: MSyncType) -> Result<(), MMapError> {
        Ok(())
    }

    fn advise(&self, _config: MAdviseConfig) -> Result<(), MMapError> {
        Ok(())
    }

    fn unmap(self) -> Result<(), MMapError> {
        Ok(())
    }
}

impl MMapMut for MMapBase {
    fn set_byte(&mut self, i: usize, b: u8) {
        self.data.set(i, b);
    }
}

impl MMapExec for MMapBase {

}

impl MMapExecMut for MMapBase {

}

/// Law: the protection round trip is lossless.  Dropping a region from
/// read-write to read-only and raising it back to read-write is accepted on
/// every platform, and the second step returns the region to exactly its
/// original state, bytes included.
pub proof fn lemma_protection_round_trip(m: MMapBase)
    requires
        m.prot_state() == Prot::ReadWrite,
    ensures
        protect_allowed(Prot::ReadOnly, m.platform()),
        protect_allowed(Prot::ReadWrite, m.platform()),
        m.with_prot(Prot::ReadOnly).with_prot(Prot::ReadWrite) == m,
{
}

/// Law: a platform that forbids writable-and-executable pages refuses every
/// request for that state, so a conversion into it fails and — by the
/// conversion contracts — hands the untouched source handle back.
pub proof fn lemma_write_exec_refused(sys: Platform)
    requires
        !sys.allow_write_exec,
    ensures
        !protect_allowed(Prot::ExecReadWrite, sys),
{
}

} // verus!
