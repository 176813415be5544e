use vstd::prelude::*;

use crate::base::{mmap_denied, resolve_addr, zeroed, MMapBase};
use crate::config::{MAP_ANON, MMapConfig};
use crate::{
    protect_allowed, AddrHint, MAdviseConfig, MMap, MMapError, MMapExec, MMapExecMut, MMapMut,
    MSyncType, Platform, Prot, EACCES,
};

verus! {

/// The outcome of an anonymous mapping request: the anonymous bit is added
/// to the caller's option set, there is no backing file and no offset.
pub open spec fn anon_denied(
    hint: AddrHint,
    map_len: nat,
    conf: MMapConfig,
    p: Prot,
    sys: Platform,
) -> Option<MMapError> {
    mmap_denied(hint, map_len, p, conf.flag_bits() | MAP_ANON, 0, sys)
}

/// Read-only handle over an anonymous mapping.
#[derive(Debug)]
pub struct AnonMMap {
    inner: MMapBase,
}

/// Read-write handle over an anonymous mapping.
#[derive(Debug)]
pub struct AnonMMapMut {
    inner: MMapBase,
}

/// Executable read-only handle over an anonymous mapping.
#[derive(Debug)]
pub struct AnonExecutableMMap {
    inner: MMapBase,
}

/// Executable read-write handle over an anonymous mapping.  Creating or
/// converting into this state fails on a platform that refuses
/// writable-and-executable pages.
#[derive(Debug)]
pub struct AnonExecutableMMapMut {
    inner: MMapBase,
}

impl AnonMMap {
    /// Map `map_len` anonymous read-only pages.  Anonymous pages are
    /// kernel-zeroed: on success every mapped byte is 0.
    pub fn new(addr_hint: AddrHint, map_len: usize, conf: MMapConfig, sys: Platform) -> (r:
        Result<AnonMMap, MMapError>)
        requires
            sys.wf(),
        ensures
            match r {
                Ok(m) => {
                    &&& anon_denied(addr_hint, map_len as nat, conf, Prot::ReadOnly, sys) is None
                    &&& m.wf()
                    &&& m.prot_state() == Prot::ReadOnly
                    &&& m.bytes() == Seq::new(map_len as nat, |i: int| 0u8)
                    &&& m.region_addr() == resolve_addr(addr_hint, sys)
                    &&& m.platform() == sys
                },
                Err(e) => anon_denied(addr_hint, map_len as nat, conf, Prot::ReadOnly, sys)
                    == Some(e),
            },
    {
        let flags = conf.value() | MAP_ANON;
        match MMapBase::new(addr_hint, zeroed(map_len), Prot::ReadOnly, flags, 0, sys) {
            Ok(inner) => Ok(AnonMMap { inner }),
            Err(e) => Err(e),
        }
    }

    /// Convert this handle into a read-write handle over the same region.
    /// The handle is consumed; on failure it comes back untouched.
    pub fn into_read_write(self) -> (r: Result<AnonMMapMut, (MMapError, AnonMMap)>)
        requires
            self.wf(),
        ensures
            match r {
                Ok(m) => {
                    &&& protect_allowed(Prot::ReadWrite, self.platform())
                    &&& m.wf()
                    &&& m.prot_state() == Prot::ReadWrite
                    &&& m.bytes() == self.bytes()
                    &&& m.region_addr() == self.region_addr()
                    &&& m.platform() == self.platform()
                },
                Err((e, s)) => {
                    &&& !protect_allowed(Prot::ReadWrite, self.platform())
                    &&& e == MMapError::OsMapping(EACCES)
                    &&& s == self
                },
            },
    {
        match self.inner.try_protect(Prot::ReadWrite) {
            Ok(inner) => Ok(AnonMMapMut { inner }),
            Err((e, inner)) => Err((e, AnonMMap { inner })),
        }
    }

    /// Convert this handle into an executable read-only handle over the same
    /// region.  The handle is consumed; on failure it comes back untouched.
    pub fn into_exec(self) -> (r: Result<AnonExecutableMMap, (MMapError, AnonMMap)>)
        requires
            self.wf(),
        ensures
            match r {
                Ok(m) => {
                    &&& protect_allowed(Prot::ExecReadOnly, self.platform())
                    &&& m.wf()
                    &&& m.prot_state() == Prot::ExecReadOnly
                    &&& m.bytes() == self.bytes()
                    &&& m.region_addr() == self.region_addr()
                    &&& m.platform() == self.platform()
                },
                Err((e, s)) => {
                    &&& !protect_allowed(Prot::ExecReadOnly, self.platform())
                    &&& e == MMapError::OsMapping(EACCES)
                    &&& s == self
                },
            },
    {
        match self.inner.try_protect(Prot::ExecReadOnly) {
            Ok(inner) => Ok(AnonExecutableMMap { inner }),
            Err((e, inner)) => Err((e, AnonMMap { inner })),
        }
    }

    /// Convert this handle into an executable read-write handle over the
    /// same region.  Fails on a platform that refuses writable-and-
    /// executable pages, and then hands the untouched handle back.
    pub fn into_exec_mut(self) -> (r: Result<AnonExecutableMMapMut, (MMapError, AnonMMap)>)
        requires
            self.wf(),
        ensures
            match r {
                Ok(m) => {
                    &&& protect_allowed(Prot::ExecReadWrite, self.platform())
                    &&& m.wf()
                    &&& m.prot_state() == Prot::ExecReadWrite
                    &&& m.bytes() == self.bytes()
                    &&& m.region_addr() == self.region_addr()
                    &&& m.platform() == self.platform()
                },
                Err((e, s)) => {
                    &&& !protect_allowed(Prot::ExecReadWrite, self.platform())
                    &&& e == MMapError::OsMapping(EACCES)
                    &&& s == self
                },
            },
    {
        match self.inner.try_protect(Prot::ExecReadWrite) {
            Ok(inner) => Ok(AnonExecutableMMapMut { inner }),
            Err((e, inner)) => Err((e, AnonMMap { inner })),
        }
    }
}

impl MMap for AnonMMap {
    closed spec fn bytes(&self) -> Seq<u8> {
        self.inner.bytes()
    }

    closed spec fn region_addr(&self) -> nat {
        self.inner.region_addr()
    }

    closed spec fn prot_state(&self) -> Prot {
        self.inner.prot_state()
    }

    closed spec fn platform(&self) -> Platform {
        self.inner.platform()
    }

    closed spec fn wf(&self) -> bool {
        self.inner.wf() && self.inner.prot_state() == Prot::ReadOnly
    }

    fn len(&self) -> usize {
        self.inner.len()
    }

    fn addr(&self) -> usize {
        self.inner.addr()
    }

    fn as_slice(&self) -> &[u8] {
        self.inner.as_slice()
    }

    fn byte_at(&self, i: usize) -> u8 {
        self.inner.byte_at(i)
    }

    fn to_vec(&self) -> Vec<u8> {
        self.inner.to_vec()
    }

    fn sync(&self, typ: MSyncType) -> Result<(), MMapError> {
        self.inner.sync(typ)
    }

    fn advise(&self, config: MAdviseConfig) -> Result<(), MMapError> {
        self.inner.advise(config)
    }

    fn unmap(self) -> Result<(), MMapError> {
        self.inner.unmap()
    }
}

impl AnonMMapMut {
    /// Map `map_len` anonymous read-write pages.  Anonymous pages are
    /// kernel-zeroed: on success every mapped byte is 0.
    pub fn new(addr_hint: AddrHint, map_len: usize, conf: MMapConfig, sys: Platform) -> (r:
        Result<AnonMMapMut, MMapError>)
        requires
            sys.wf(),
        ensures
            match r {
                Ok(m) => {
                    &&& anon_denied(addr_hint, map_len as nat, conf, Prot::ReadWrite, sys) is None
                    &&& m.wf()
                    &&& m.prot_state() == Prot::ReadWrite
                    &&& m.bytes() == Seq::new(map_len as nat, |i: int| 0u8)
                    &&& m.region_addr() == resolve_addr(addr_hint, sys)
                    &&& m.platform() == sys
                },
                Err(e) => anon_denied(addr_hint, map_len as nat, conf, Prot::ReadWrite, sys)
                    == Some(e),
            },
    {
        let flags = conf.value() | MAP_ANON;
        match MMapBase::new(addr_hint, zeroed(map_len), Prot::ReadWrite, flags, 0, sys) {
            Ok(inner) => Ok(AnonMMapMut { inner }),
            Err(e) => Err(e),
        }
    }

    /// Convert this handle into a read-only handle over the same region;
    /// the written bytes stay as they are.  The handle is consumed; on
    /// failure it comes back untouched.
    pub fn into_read_only(self) -> (r: Result<AnonMMap, (MMapError, AnonMMapMut)>)
        requires
            self.wf(),
        ensures
            match r {
                Ok(m) => {
                    &&& protect_allowed(Prot::ReadOnly, self.platform())
                    &&& m.wf()
                    &&& m.prot_state() == Prot::ReadOnly
                    &&& m.bytes() == self.bytes()
                    &&& m.region_addr() == self.region_addr()
                    &&& m.platform() == self.platform()
                },
                Err((e, s)) => {
                    &&& !protect_allowed(Prot::ReadOnly, self.platform())
                    &&& e == MMapError::OsMapping(EACCES)
                    &&& s == self
                },
            },
    {
        match self.inner.try_protect(Prot::ReadOnly) {
            Ok(inner) => Ok(AnonMMap { inner }),
            Err((e, inner)) => Err((e, AnonMMapMut { inner })),
        }
    }

    /// Convert this handle into an executable read-only handle over the same
    /// region.  The handle is consumed; on failure it comes back untouched.
    pub fn into_exec(self) -> (r: Result<AnonExecutableMMap, (MMapError, AnonMMapMut)>)
        requires
            self.wf(),
        ensures
            match r {
                Ok(m) => {
                    &&& protect_allowed(Prot::ExecReadOnly, self.platform())
                    &&& m.wf()
                    &&& m.prot_state() == Prot::ExecReadOnly
                    &&& m.bytes() == self.bytes()
                    &&& m.region_addr() == self.region_addr()
                    &&& m.platform() == self.platform()
                },
                Err((e, s)) => {
                    &&& !protect_allowed(Prot::ExecReadOnly, self.platform())
                    &&& e == MMapError::OsMapping(EACCES)
                    &&& s == self
                },
            },
    {
        match self.inner.try_protect(Prot::ExecReadOnly) {
            Ok(inner) => Ok(AnonExecutableMMap { inner }),
            Err((e, inner)) => Err((e, AnonMMapMut { inner })),
        }
    }

    /// Convert this handle into an executable read-write handle over the
    /// same region.  Fails on a platform that refuses writable-and-
    /// executable pages, and then hands the untouched handle back.
    pub fn into_exec_mut(self) -> (r: Result<AnonExecutableMMapMut, (MMapError, AnonMMapMut)>)
        requires
            self.wf(),
        ensures
            match r {
                Ok(m) => {
                    &&& protect_allowed(Prot::ExecReadWrite, self.platform())
                    &&& m.wf()
                    &&& m.prot_state() == Prot::ExecReadWrite
                    &&& m.bytes() == self.bytes()
                    &&& m.region_addr() == self.region_addr()
                    &&& m.platform() == self.platform()
                },
                Err((e, s)) => {
                    &&& !protect_allowed(Prot::ExecReadWrite, self.platform())
                    &&& e == MMapError::OsMapping(EACCES)
                    &&& s == self
                },
            },
    {
        match self.inner.try_protect(Prot::ExecReadWrite) {
            Ok(inner) => Ok(AnonExecutableMMapMut { inner }),
            Err((e, inner)) => Err((e, AnonMMapMut { inner })),
        }
    }
}

impl MMap for AnonMMapMut {
    closed spec fn bytes(&self) -> Seq<u8> {
        self.inner.bytes()
    }

    closed spec fn region_addr(&self) -> nat {
        self.inner.region_addr()
    }

    closed spec fn prot_state(&self) -> Prot {
        self.inner.prot_state()
    }

    closed spec fn platform(&self) -> Platform {
        self.inner.platform()
    }

    closed spec fn wf(&self) -> bool {
        self.inner.wf() && self.inner.prot_state() == Prot::ReadWrite
    }

    fn len(&self) -> usize {
        self.inner.len()
    }

    fn addr(&self) -> usize {
        self.inner.addr()
    }

    fn as_slice(&self) -> &[u8] {
        self.inner.as_slice()
    }

    fn byte_at(&self, i: usize) -> u8 {
        self.inner.byte_at(i)
    }

    fn to_vec(&self) -> Vec<u8> {
        self.inner.to_vec()
    }

    fn sync(&self, typ: MSyncType) -> Result<(), MMapError> {
        self.inner.sync(typ)
    }

    fn advise(&self, config: MAdviseConfig) -> Result<(), MMapError> {
        self.inner.advise(config)
    }

    fn unmap(self) -> Result<(), MMapError> {
        self.inner.unmap()
    }
}

impl MMapMut for AnonMMapMut {
    fn set_byte(&mut self, i: usize, b: u8) {
        self.inner.set_byte(i, b);
    }
}

impl AnonExecutableMMap {
    /// Map `map_len` anonymous executable read-only pages.  Anonymous pages
    /// are kernel-zeroed: on success every mapped byte is 0.
    pub fn new(addr_hint: AddrHint, map_len: usize, conf: MMapConfig, sys: Platform) -> (r:
        Result<AnonExecutableMMap, MMapError>)
        requires
            sys.wf(),
        ensures
            match r {
                Ok(m) => {
                    &&& anon_denied(addr_hint, map_len as nat, conf, Prot::ExecReadOnly, sys)
                        is None
                    &&& m.wf()
                    &&& m.prot_state() == Prot::ExecReadOnly
                    &&& m.bytes() == Seq::new(map_len as nat, |i: int| 0u8)
                    &&& m.region_addr() == resolve_addr(addr_hint, sys)
                    &&& m.platform() == sys
                },
                Err(e) => anon_denied(addr_hint, map_len as nat, conf, Prot::ExecReadOnly, sys)
                    == Some(e),
            },
    {
        let flags = conf.value() | MAP_ANON;
        match MMapBase::new(addr_hint, zeroed(map_len), Prot::ExecReadOnly, flags, 0, sys) {
            Ok(inner) => Ok(AnonExecutableMMap { inner }),
            Err(e) => Err(e),
        }
    }

    /// Convert this handle into a read-only handle over the same region.
    /// The handle is consumed; on failure it comes back untouched.
    pub fn into_read_only(self) -> (r: Result<AnonMMap, (MMapError, AnonExecutableMMap)>)
        requires
            self.wf(),
        ensures
            match r {
                Ok(m) => {
                    &&& protect_allowed(Prot::ReadOnly, self.platform())
                    &&& m.wf()
                    &&& m.prot_state() == Prot::ReadOnly
                    &&& m.bytes() == self.bytes()
                    &&& m.region_addr() == self.region_addr()
                    &&& m.platform() == self.platform()
                },
                Err((e, s)) => {
                    &&& !protect_allowed(Prot::ReadOnly, self.platform())
                    &&& e == MMapError::OsMapping(EACCES)
                    &&& s == self
                },
            },
    {
        match self.inner.try_protect(Prot::ReadOnly) {
            Ok(inner) => Ok(AnonMMap { inner }),
            Err((e, inner)) => Err((e, AnonExecutableMMap { inner })),
        }
    }

    /// Convert this handle into a read-write handle over the same region.
    /// The handle is consumed; on failure it comes back untouched.
    pub fn into_read_write(self) -> (r: Result<AnonMMapMut, (MMapError, AnonExecutableMMap)>)
        requires
            self.wf(),
        ensures
            match r {
                Ok(m) => {
                    &&& protect_allowed(Prot::ReadWrite, self.platform())
                    &&& m.wf()
                    &&& m.prot_state() == Prot::ReadWrite
                    &&& m.bytes() == self.bytes()
                    &&& m.region_addr() == self.region_addr()
                    &&& m.platform() == self.platform()
                },
                Err((e, s)) => {
                    &&& !protect_allowed(Prot::ReadWrite, self.platform())
                    &&& e == MMapError::OsMapping(EACCES)
                    &&& s == self
                },
            },
    {
        match self.inner.try_protect(Prot::ReadWrite) {
            Ok(inner) => Ok(AnonMMapMut { inner }),
            Err((e, inner)) => Err((e, AnonExecutableMMap { inner })),
        }
    }

    /// Convert this handle into an executable read-write handle over the
    /// same region.  Fails on a platform that refuses writable-and-
    /// executable pages, and then hands the untouched handle back.
    pub fn into_exec_mut(self) -> (r: Result<
        AnonExecutableMMapMut,
        (MMapError, AnonExecutableMMap),
    >)
        requires
            self.wf(),
        ensures
            match r {
                Ok(m) => {
                    &&& protect_allowed(Prot::ExecReadWrite, self.platform())
                    &&& m.wf()
                    &&& m.prot_state() == Prot::ExecReadWrite
                    &&& m.bytes() == self.bytes()
                    &&& m.region_addr() == self.region_addr()
                    &&& m.platform() == self.platform()
                },
                Err((e, s)) => {
                    &&& !protect_allowed(Prot::ExecReadWrite, self.platform())
                    &&& e == MMapError::OsMapping(EACCES)
                    &&& s == self
                },
            },
    {
        match self.inner.try_protect(Prot::ExecReadWrite) {
            Ok(inner) => Ok(AnonExecutableMMapMut { inner }),
            Err((e, inner)) => Err((e, AnonExecutableMMap { inner })),
        }
    }
}

impl MMap for AnonExecutableMMap {
    closed spec fn bytes(&self) -> Seq<u8> {
        self.inner.bytes()
    }

    closed spec fn region_addr(&self) -> nat {
        self.inner.region_addr()
    }

    closed spec fn prot_state(&self) -> Prot {
        self.inner.prot_state()
    }

    closed spec fn platform(&self) -> Platform {
        self.inner.platform()
    }

    closed spec fn wf(&self) -> bool {
        self.inner.wf() && self.inner.prot_state() == Prot::ExecReadOnly
    }

    fn len(&self) -> usize {
        self.inner.len()
    }

    fn addr(&self) -> usize {
        self.inner.addr()
    }

    fn as_slice(&self) -> &[u8] {
        self.inner.as_slice()
    }

    fn byte_at(&self, i: usize) -> u8 {
        self.inner.byte_at(i)
    }

    fn to_vec(&self) -> Vec<u8> {
        self.inner.to_vec()
    }

    fn sync(&self, typ: MSyncType) -> Result<(), MMapError> {
        self.inner.sync(typ)
    }

    fn advise(&self, config: MAdviseConfig) -> Result<(), MMapError> {
        self.inner.advise(config)
    }

    fn unmap(self) -> Result<(), MMapError> {
        self.inner.unmap()
    }
}

impl MMapExec for AnonExecutableMMap {

}

impl AnonExecutableMMapMut {
    /// Map `map_len` anonymous executable read-write pages.  Anonymous pages
    /// are kernel-zeroed: on success every mapped byte is 0.  Fails with
    /// `EACCES` on a platform that refuses writable-and-executable pages.
    pub fn new(addr_hint: AddrHint, map_len: usize, conf: MMapConfig, sys: Platform) -> (r:
        Result<AnonExecutableMMapMut, MMapError>)
        requires
            sys.wf(),
        ensures
            match r {
                Ok(m) => {
                    &&& anon_denied(addr_hint, map_len as nat, conf, Prot::ExecReadWrite, sys)
                        is None
                    &&& m.wf()
                    &&& m.prot_state() == Prot::ExecReadWrite
                    &&& m.bytes() == Seq::new(map_len as nat, |i: int| 0u8)
                    &&& m.region_addr() == resolve_addr(addr_hint, sys)
                    &&& m.platform() == sys
                },
                Err(e) => anon_denied(addr_hint, map_len as nat, conf, Prot::ExecReadWrite, sys)
                    == Some(e),
            },
    {
        let flags = conf.value() | MAP_ANON;
        match MMapBase::new(addr_hint, zeroed(map_len), Prot::ExecReadWrite, flags, 0, sys) {
            Ok(inner) => Ok(AnonExecutableMMapMut { inner }),
            Err(e) => Err(e),
        }
    }

    /// Convert this handle into a read-only handle over the same region.
    /// The handle is consumed; on failure it comes back untouched.
    pub fn into_read_only(self) -> (r: Result<AnonMMap, (MMapError, AnonExecutableMMapMut)>)
        requires
            self.wf(),
        ensures
            match r {
                Ok(m) => {
                    &&& protect_allowed(Prot::ReadOnly, self.platform())
                    &&& m.wf()
                    &&& m.prot_state() == Prot::ReadOnly
                    &&& m.bytes() == self.bytes()
                    &&& m.region_addr() == self.region_addr()
                    &&& m.platform() == self.platform()
                },
                Err((e, s)) => {
                    &&& !protect_allowed(Prot::ReadOnly, self.platform())
                    &&& e == MMapError::OsMapping(EACCES)
                    &&& s == self
                },
            },
    {
        match self.inner.try_protect(Prot::ReadOnly) {
            Ok(inner) => Ok(AnonMMap { inner }),
            Err((e, inner)) => Err((e, AnonExecutableMMapMut { inner })),
        }
    }

    /// Convert this handle into a read-write handle over the same region.
    /// The handle is consumed; on failure it comes back untouched.
    pub fn into_read_write(self) -> (r: Result<AnonMMapMut, (MMapError, AnonExecutableMMapMut)>)
        requires
            self.wf(),
        ensures
            match r {
                Ok(m) => {
                    &&& protect_allowed(Prot::ReadWrite, self.platform())
                    &&& m.wf()
                    &&& m.prot_state() == Prot::ReadWrite
                    &&& m.bytes() == self.bytes()
                    &&& m.region_addr() == self.region_addr()
                    &&& m.platform() == self.platform()
                },
                Err((e, s)) => {
                    &&& !protect_allowed(Prot::ReadWrite, self.platform())
                    &&& e == MMapError::OsMapping(EACCES)
                    &&& s == self
                },
            },
    {
        match self.inner.try_protect(Prot::ReadWrite) {
            Ok(inner) => Ok(AnonMMapMut { inner }),
            Err((e, inner)) => Err((e, AnonExecutableMMapMut { inner })),
        }
    }

    /// Convert this handle into an executable read-only handle over the same
    /// region.  The handle is consumed; on failure it comes back untouched.
    pub fn into_exec(self) -> (r: Result<AnonExecutableMMap, (MMapError, AnonExecutableMMapMut)>)
        requires
            self.wf(),
        ensures
            match r {
                Ok(m) => {
                    &&& protect_allowed(Prot::ExecReadOnly, self.platform())
                    &&& m.wf()
                    &&& m.prot_state() == Prot::ExecReadOnly
                    &&& m.bytes() == self.bytes()
                    &&& m.region_addr() == self.region_addr()
                    &&& m.platform() == self.platform()
                },
                Err((e, s)) => {
                    &&& !protect_allowed(Prot::ExecReadOnly, self.platform())
                    &&& e == MMapError::OsMapping(EACCES)
                    &&& s == self
                },
            },
    {
        match self.inner.try_protect(Prot::ExecReadOnly) {
            Ok(inner) => Ok(AnonExecutableMMap { inner }),
            Err((e, inner)) => Err((e, AnonExecutableMMapMut { inner })),
        }
    }
}

impl MMap for AnonExecutableMMapMut {
    closed spec fn bytes(&self) -> Seq<u8> {
        self.inner.bytes()
    }

    closed spec fn region_addr(&self) -> nat {
        self.inner.region_addr()
    }

    closed spec fn prot_state(&self) -> Prot {
        self.inner.prot_state()
    }

    closed spec fn platform(&self) -> Platform {
        self.inner.platform()
    }

    closed spec fn wf(&self) -> bool {
        self.inner.wf() && self.inner.prot_state() == Prot::ExecReadWrite
    }

    fn len(&self) -> usize {
        self.inner.len()
    }

    fn addr(&self) -> usize {
        self.inner.addr()
    }

    fn as_slice(&self) -> &[u8] {
        self.inner.as_slice()
    }

    fn byte_at(&self, i: usize) -> u8 {
        self.inner.byte_at(i)
    }

    fn to_vec(&self) -> Vec<u8> {
        self.inner.to_vec()
    }

    fn sync(&self, typ: MSyncType) -> Result<(), MMapError> {
        self.inner.sync(typ)
    }

    fn advise(&self, config: MAdviseConfig) -> Result<(), MMapError> {
        self.inner.advise(config)
    }

    fn unmap(self) -> Result<(), MMapError> {
        self.inner.unmap()
    }
}

impl MMapMut for AnonExecutableMMapMut {
    fn set_byte(&mut self, i: usize, b: u8) {
        self.inner.set_byte(i, b);
    }
}

impl MMapExec for AnonExecutableMMapMut {

}

impl MMapExecMut for AnonExecutableMMapMut {

}

} // verus!
