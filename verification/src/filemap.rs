use vstd::prelude::*;

use crate::base::{mmap_denied, resolve_addr, MMapBase};
use crate::config::MMapConfig;
use crate::{
    protect_allowed, AddrHint, MAdviseConfig, MMap, MMapError, MMapExec, MMapExecMut, MMapMut,
    MSyncType, Platform, Prot, EACCES,
};

verus! {

/// An in-memory image of the open file handed to a file mapping: the byte
/// content the file holds, from which the mapping length is derived.  The
/// unverified layer that owns real file handles reads the file once and
/// passes its image in; a mapping at offset `off` then holds the file bytes
/// from `off` to the end.
#[derive(Debug)]
pub struct FileImage {
    bytes: Vec<u8>,
}

impl FileImage {
    /// The bytes of the imaged file.
    pub closed spec fn content(&self) -> Seq<u8> {
        self.bytes@
    }

    /// Image a file from its content.
    pub fn from_vec(bytes: Vec<u8>) -> (f: FileImage)
        ensures
            f.content() == bytes@,
    {
        FileImage { bytes }
    }

    /// The file's length in bytes.
    pub fn len(&self) -> (n: usize)
        ensures
            n == self.content().len(),
    {
        self.bytes.len()
    }
}

/// The outcome of a file mapping request.  An offset beyond the end of the
/// file is refused before any mapping call would be issued — mapping past
/// the end of the backing object would raise a fatal signal on first access
/// — and everything else is up to the kernel model: the derived length is
/// the file length minus the offset, and the offset must sit on a page
/// boundary.
pub open spec fn file_denied(
    hint: AddrHint,
    conf: MMapConfig,
    file_len: nat,
    off: nat,
    p: Prot,
    sys: Platform,
) -> Option<MMapError> {
    if off > file_len {
        Some(MMapError::InvalidOffset)
    } else {
        mmap_denied(hint, (file_len - off) as nat, p, conf.flag_bits(), off, sys)
    }
}

/// A copy of `v` from index `from` to the end.
fn tail_of(v: &Vec<u8>, from: usize) -> (t: Vec<u8>)
    requires
        from <= v@.len(),
    ensures
        t@ == v@.subrange(from as int, v@.len() as int),
{
    let mut t: Vec<u8> = Vec::new();
    let mut i: usize = from;
    while i < v.len()
        invariant
            from <= i <= v@.len(),
            t@ =~= v@.subrange(from as int, i as int),
        decreases v@.len() - i,
    {
        t.push(v[i]);
        assert(t@ =~= v@.subrange(from as int, i + 1));
        i = i + 1;
    }
    assert(t@ =~= v@.subrange(from as int, v@.len() as int));
    t
}

/// Read-only handle over a file-backed mapping.
#[derive(Debug)]
pub struct FileMMap {
    inner: MMapBase,
}

/// Read-write handle over a file-backed mapping.
#[derive(Debug)]
pub struct FileMMapMut {
    inner: MMapBase,
}

/// Executable read-only handle over a file-backed mapping.
#[derive(Debug)]
pub struct ExecFileMMap {
    inner: MMapBase,
}

/// Executable read-write handle over a file-backed mapping.  Creating or
/// converting into this state fails on a platform that refuses
/// writable-and-executable pages.
#[derive(Debug)]
pub struct ExecFileMMapMut {
    inner: MMapBase,
}

impl FileMMap {
    /// Map the file read-only from byte `off` to its end.  An offset beyond
    /// the file is refused with `InvalidOffset` before any mapping call; on
    /// success the mapped bytes are the file bytes from `off` to the end.
    pub fn new(addr_hint: AddrHint, conf: MMapConfig, file: &FileImage, off: usize, sys: Platform)
        -> (r: Result<FileMMap, MMapError>)
        requires
            sys.wf(),
        ensures
            match r {
                Ok(m) => {
                    &&& file_denied(addr_hint, conf, file.content().len(), off as nat,
                        Prot::ReadOnly, sys) is None
                    &&& m.wf()
                    &&& m.prot_state() == Prot::ReadOnly
                    &&& m.bytes() == file.content().subrange(off as int,
                        file.content().len() as int)
                    &&& m.region_addr() == resolve_addr(addr_hint, sys)
                    &&& m.platform() == sys
                },
                Err(e) => file_denied(addr_hint, conf, file.content().len(), off as nat,
                    Prot::ReadOnly, sys) == Some(e),
            },
    {
        if off > file.len() {
            return Err(MMapError::InvalidOffset);
        }
        let contents = tail_of(&file.bytes, off);
        match MMapBase::new(addr_hint, contents, Prot::ReadOnly, conf.value(), off, sys) {
            Ok(inner) => Ok(FileMMap { inner }),
            Err(e) => Err(e),
        }
    }

    /// Convert this handle into a read-write handle over the same region.
    /// The handle is consumed; on failure it comes back untouched.
    pub fn into_read_write(self) -> (r: Result<FileMMapMut, (MMapError, FileMMap)>)
        requires
            self.wf(),
        ensures
            match r {
                Ok(m) => {
                    &&& protect_allowed(Prot::ReadWrite, self.platform())
                    &&& m.wf()
                    &&& m.prot_state() == Prot::ReadWrite
                    &&& m.bytes() == self.bytes()
                    &&& m.region_addr() == self.region_addr()
                    &&& m.platform() == self.platform()
                },
                Err((e, s)) => {
                    &&& !protect_allowed(Prot::ReadWrite, self.platform())
                    &&& e == MMapError::OsMapping(EACCES)
                    &&& s == self
                },
            },
    {
        match self.inner.try_protect(Prot::ReadWrite) {
            Ok(inner) => Ok(FileMMapMut { inner }),
            Err((e, inner)) => Err((e, FileMMap { inner })),
        }
    }

    /// Convert this handle into an executable read-only handle over the same
    /// region.  The handle is consumed; on failure it comes back untouched.
    pub fn into_exec(self) -> (r: Result<ExecFileMMap, (MMapError, FileMMap)>)
        requires
            self.wf(),
        ensures
            match r {
                Ok(m) => {
                    &&& protect_allowed(Prot::ExecReadOnly, self.platform())
                    &&& m.wf()
                    &&& m.prot_state() == Prot::ExecReadOnly
                    &&& m.bytes() == self.bytes()
                    &&& m.region_addr() == self.region_addr()
                    &&& m.platform() == self.platform()
                },
                Err((e, s)) => {
                    &&& !protect_allowed(Prot::ExecReadOnly, self.platform())
                    &&& e == MMapError::OsMapping(EACCES)
                    &&& s == self
                },
            },
    {
        match self.inner.try_protect(Prot::ExecReadOnly) {
            Ok(inner) => Ok(ExecFileMMap { inner }),
            Err((e, inner)) => Err((e, FileMMap { inner })),
        }
    }

    /// Convert this handle into an executable read-write handle over the
    /// same region.  Fails on a platform that refuses writable-and-
    /// executable pages, and then hands the untouched handle back.
    pub fn into_exec_mut(self) -> (r: Result<ExecFileMMapMut, (MMapError, FileMMap)>)
        requires
            self.wf(),
        ensures
            match r {
                Ok(m) => {
                    &&& protect_allowed(Prot::ExecReadWrite, self.platform())
                    &&& m.wf()
                    &&& m.prot_state() == Prot::ExecReadWrite
                    &&& m.bytes() == self.bytes()
                    &&& m.region_addr() == self.region_addr()
                    &&& m.platform() == self.platform()
                },
                Err((e, s)) => {
                    &&& !protect_allowed(Prot::ExecReadWrite, self.platform())
                    &&& e == MMapError::OsMapping(EACCES)
                    &&& s == self
                },
            },
    {
        match self.inner.try_protect(Prot::ExecReadWrite) {
            Ok(inner) => Ok(ExecFileMMapMut { inner }),
            Err((e, inner)) => Err((e, FileMMap { inner })),
        }
    }
}

impl MMap for FileMMap {
    closed spec fn bytes(&self) -> Seq<u8> {
        self.inner.bytes()
    }

    closed spec fn region_addr(&self) -> nat {
        self.inner.region_addr()
    }

    closed spec fn prot_state(&self) -> Prot {
        self.inner.prot_state()
    }

    closed spec fn platform(&self) -> Platform {
        self.inner.platform()
    }

    closed spec fn wf(&self) -> bool {
        self.inner.wf() && self.inner.prot_state() == Prot::ReadOnly
    }

    fn len(&self) -> usize {
        self.inner.len()
    }

    fn addr(&self) -> usize {
        self.inner.addr()
    }

    fn as_slice(&self) -> &[u8] {
        self.inner.as_slice()
    }

    fn byte_at(&self, i: usize) -> u8 {
        self.inner.byte_at(i)
    }

    fn to_vec(&self) -> Vec<u8> {
        self.inner.to_vec()
    }

    fn sync(&self, typ: MSyncType) -> Result<(), MMapError> {
        self.inner.sync(typ)
    }

    fn advise(&self, config: MAdviseConfig) -> Result<(), MMapError> {
        self.inner.advise(config)
    }

    fn unmap(self) -> Result<(), MMapError> {
        self.inner.unmap()
    }
}

impl FileMMapMut {
    /// Map the file read-write from byte `off` to its end.  An offset beyond
    /// the file is refused with `InvalidOffset` before any mapping call; on
    /// success the mapped bytes are the file bytes from `off` to the end.
    pub fn new(addr_hint: AddrHint, conf: MMapConfig, file: &FileImage, off: usize, sys: Platform)
        -> (r: Result<FileMMapMut, MMapError>)
        requires
            sys.wf(),
        ensures
            match r {
                Ok(m) => {
                    &&& file_denied(addr_hint, conf, file.content().len(), off as nat,
                        Prot::ReadWrite, sys) is None
                    &&& m.wf()
                    &&& m.prot_state() == Prot::ReadWrite
                    &&& m.bytes() == file.content().subrange(off as int,
                        file.content().len() as int)
                    &&& m.region_addr() == resolve_addr(addr_hint, sys)
                    &&& m.platform() == sys
                },
                Err(e) => file_denied(addr_hint, conf, file.content().len(), off as nat,
                    Prot::ReadWrite, sys) == Some(e),
            },
    {
        if off > file.len() {
            return Err(MMapError::InvalidOffset);
        }
        let contents = tail_of(&file.bytes, off);
        match MMapBase::new(addr_hint, contents, Prot::ReadWrite, conf.value(), off, sys) {
            Ok(inner) => Ok(FileMMapMut { inner }),
            Err(e) => Err(e),
        }
    }

    /// Convert this handle into a read-only handle over the same region;
    /// the written bytes stay as they are.  The handle is consumed; on
    /// failure it comes back untouched.
    pub fn into_read_only(self) -> (r: Result<FileMMap, (MMapError, FileMMapMut)>)
        requires
            self.wf(),
        ensures
            match r {
                Ok(m) => {
                    &&& protect_allowed(Prot::ReadOnly, self.platform())
                    &&& m.wf()
                    &&& m.prot_state() == Prot::ReadOnly
                    &&& m.bytes() == self.bytes()
                    &&& m.region_addr() == self.region_addr()
                    &&& m.platform() == self.platform()
                },
                Err((e, s)) => {
                    &&& !protect_allowed(Prot::ReadOnly, self.platform())
                    &&& e == MMapError::OsMapping(EACCES)
                    &&& s == self
                },
            },
    {
        match self.inner.try_protect(Prot::ReadOnly) {
            Ok(inner) => Ok(FileMMap { inner }),
            Err((e, inner)) => Err((e, FileMMapMut { inner })),
        }
    }

    /// Convert this handle into an executable read-only handle over the same
    /// region.  The handle is consumed; on failure it comes back untouched.
    pub fn into_exec(self) -> (r: Result<ExecFileMMap, (MMapError, FileMMapMut)>)
        requires
            self.wf(),
        ensures
            match r {
                Ok(m) => {
                    &&& protect_allowed(Prot::ExecReadOnly, self.platform())
                    &&& m.wf()
                    &&& m.prot_state() == Prot::ExecReadOnly
                    &&& m.bytes() == self.bytes()
                    &&& m.region_addr() == self.region_addr()
                    &&& m.platform() == self.platform()
                },
                Err((e, s)) => {
                    &&& !protect_allowed(Prot::ExecReadOnly, self.platform())
                    &&& e == MMapError::OsMapping(EACCES)
                    &&& s == self
                },
            },
    {
        match self.inner.try_protect(Prot::ExecReadOnly) {
            Ok(inner) => Ok(ExecFileMMap { inner }),
            Err((e, inner)) => Err((e, FileMMapMut { inner })),
        }
    }

    /// Convert this handle into an executable read-write handle over the
    /// same region.  Fails on a platform that refuses writable-and-
    /// executable pages, and then hands the untouched handle back.
    pub fn into_exec_mut(self) -> (r: Result<ExecFileMMapMut, (MMapError, FileMMapMut)>)
        requires
            self.wf(),
        ensures
            match r {
                Ok(m) => {
                    &&& protect_allowed(Prot::ExecReadWrite, self.platform())
                    &&& m.wf()
                    &&& m.prot_state() == Prot::ExecReadWrite
                    &&& m.bytes() == self.bytes()
                    &&& m.region_addr() == self.region_addr()
                    &&& m.platform() == self.platform()
                },
                Err((e, s)) => {
                    &&& !protect_allowed(Prot::ExecReadWrite, self.platform())
                    &&& e == MMapError::OsMapping(EACCES)
                    &&& s == self
                },
            },
    {
        match self.inner.try_protect(Prot::ExecReadWrite) {
            Ok(inner) => Ok(ExecFileMMapMut { inner }),
            Err((e, inner)) => Err((e, FileMMapMut { inner })),
        }
    }
}

impl MMap for FileMMapMut {
    closed spec fn bytes(&self) -> Seq<u8> {
        self.inner.bytes()
    }

    closed spec fn region_addr(&self) -> nat {
        self.inner.region_addr()
    }

    closed spec fn prot_state(&self) -> Prot {
        self.inner.prot_state()
    }

    closed spec fn platform(&self) -> Platform {
        self.inner.platform()
    }

    closed spec fn wf(&self) -> bool {
        self.inner.wf() && self.inner.prot_state() == Prot::ReadWrite
    }

    fn len(&self) -> usize {
        self.inner.len()
    }

    fn addr(&self) -> usize {
        self.inner.addr()
    }

    fn as_slice(&self) -> &[u8] {
        self.inner.as_slice()
    }

    fn byte_at(&self, i: usize) -> u8 {
        self.inner.byte_at(i)
    }

    fn to_vec(&self) -> Vec<u8> {
        self.inner.to_vec()
    }

    fn sync(&self, typ: MSyncType) -> Result<(), MMapError> {
        self.inner.sync(typ)
    }

    fn advise(&self, config: MAdviseConfig) -> Result<(), MMapError> {
        self.inner.advise(config)
    }

    fn unmap(self) -> Result<(), MMapError> {
        self.inner.unmap()
    }
}

impl MMapMut for FileMMapMut {
    fn set_byte(&mut self, i: usize, b: u8) {
        self.inner.set_byte(i, b);
    }
}

impl ExecFileMMap {
    /// Map the file executable and read-only from byte `off` to its end.
    /// An offset beyond the file is refused with `InvalidOffset` before any
    /// mapping call; on success the mapped bytes are the file bytes from
    /// `off` to the end.
    pub fn new(addr_hint: AddrHint, conf: MMapConfig, file: &FileImage, off: usize, sys: Platform)
        -> (r: Result<ExecFileMMap, MMapError>)
        requires
            sys.wf(),
        ensures
            match r {
                Ok(m) => {
                    &&& file_denied(addr_hint, conf, file.content().len(), off as nat,
                        Prot::ExecReadOnly, sys) is None
                    &&& m.wf()
                    &&& m.prot_state() == Prot::ExecReadOnly
                    &&& m.bytes() == file.content().subrange(off as int,
                        file.content().len() as int)
                    &&& m.region_addr() == resolve_addr(addr_hint, sys)
                    &&& m.platform() == sys
                },
                Err(e) => file_denied(addr_hint, conf, file.content().len(), off as nat,
                    Prot::ExecReadOnly, sys) == Some(e),
            },
    {
        if off > file.len() {
            return Err(MMapError::InvalidOffset);
        }
        let contents = tail_of(&file.bytes, off);
        match MMapBase::new(addr_hint, contents, Prot::ExecReadOnly, conf.value(), off, sys) {
            Ok(inner) => Ok(ExecFileMMap { inner }),
            Err(e) => Err(e),
        }
    }

    /// Convert this handle into a read-only handle over the same region.
    /// The handle is consumed; on failure it comes back untouched.
    pub fn into_read_only(self) -> (r: Result<FileMMap, (MMapError, ExecFileMMap)>)
        requires
            self.wf(),
        ensures
            match r {
                Ok(m) => {
                    &&& protect_allowed(Prot::ReadOnly, self.platform())
                    &&& m.wf()
                    &&& m.prot_state() == Prot::ReadOnly
                    &&& m.bytes() == self.bytes()
                    &&& m.region_addr() == self.region_addr()
                    &&& m.platform() == self.platform()
                },
                Err((e, s)) => {
                    &&& !protect_allowed(Prot::ReadOnly, self.platform())
                    &&& e == MMapError::OsMapping(EACCES)
                    &&& s == self
                },
            },
    {
        match self.inner.try_protect(Prot::ReadOnly) {
            Ok(inner) => Ok(FileMMap { inner }),
            Err((e, inner)) => Err((e, ExecFileMMap { inner })),
        }
    }

    /// Convert this handle into a read-write handle over the same region.
    /// The handle is consumed; on failure it comes back untouched.
    pub fn into_read_write(self) -> (r: Result<FileMMapMut, (MMapError, ExecFileMMap)>)
        requires
            self.wf(),
        ensures
            match r {
                Ok(m) => {
                    &&& protect_allowed(Prot::ReadWrite, self.platform())
                    &&& m.wf()
                    &&& m.prot_state() == Prot::ReadWrite
                    &&& m.bytes() == self.bytes()
                    &&& m.region_addr() == self.region_addr()
                    &&& m.platform() == self.platform()
                },
                Err((e, s)) => {
                    &&& !protect_allowed(Prot::ReadWrite, self.platform())
                    &&& e == MMapError::OsMapping(EACCES)
                    &&& s == self
                },
            },
    {
        match self.inner.try_protect(Prot::ReadWrite) {
            Ok(inner) => Ok(FileMMapMut { inner }),
            Err((e, inner)) => Err((e, ExecFileMMap { inner })),
        }
    }

    /// Convert this handle into an executable read-write handle over the
    /// same region.  Fails on a platform that refuses writable-and-
    /// executable pages, and then hands the untouched handle back.
    pub fn into_exec_mut(self) -> (r: Result<ExecFileMMapMut, (MMapError, ExecFileMMap)>)
        requires
            self.wf(),
        ensures
            match r {
                Ok(m) => {
                    &&& protect_allowed(Prot::ExecReadWrite, self.platform())
                    &&& m.wf()
                    &&& m.prot_state() == Prot::ExecReadWrite
                    &&& m.bytes() == self.bytes()
                    &&& m.region_addr() == self.region_addr()
                    &&& m.platform() == self.platform()
                },
                Err((e, s)) => {
                    &&& !protect_allowed(Prot::ExecReadWrite, self.platform())
                    &&& e == MMapError::OsMapping(EACCES)
                    &&& s == self
                },
            },
    {
        match self.inner.try_protect(Prot::ExecReadWrite) {
            Ok(inner) => Ok(ExecFileMMapMut { inner }),
            Err((e, inner)) => Err((e, ExecFileMMap { inner })),
        }
    }
}

impl MMap for ExecFileMMap {
    closed spec fn bytes(&self) -> Seq<u8> {
        self.inner.bytes()
    }

    closed spec fn region_addr(&self) -> nat {
        self.inner.region_addr()
    }

    closed spec fn prot_state(&self) -> Prot {
        self.inner.prot_state()
    }

    closed spec fn platform(&self) -> Platform {
        self.inner.platform()
    }

    closed spec fn wf(&self) -> bool {
        self.inner.wf() && self.inner.prot_state() == Prot::ExecReadOnly
    }

    fn len(&self) -> usize {
        self.inner.len()
    }

    fn addr(&self) -> usize {
        self.inner.addr()
    }

    fn as_slice(&self) -> &[u8] {
        self.inner.as_slice()
    }

    fn byte_at(&self, i: usize) -> u8 {
        self.inner.byte_at(i)
    }

    fn to_vec(&self) -> Vec<u8> {
        self.inner.to_vec()
    }

    fn sync(&self, typ: MSyncType) -> Result<(), MMapError> {
        self.inner.sync(typ)
    }

    fn advise(&self, config: MAdviseConfig) -> Result<(), MMapError> {
        self.inner.advise(config)
    }

    fn unmap(self) -> Result<(), MMapError> {
        self.inner.unmap()
    }
}

impl MMapExec for ExecFileMMap {

}

impl ExecFileMMapMut {
    /// Map the file executable and read-write from byte `off` to its end.
    /// An offset beyond the file is refused with `InvalidOffset` before any
    /// mapping call; `EACCES` follows on a platform that refuses
    /// writable-and-executable pages; on success the mapped bytes are the
    /// file bytes from `off` to the end.
    pub fn new(addr_hint: AddrHint, conf: MMapConfig, file: &FileImage, off: usize, sys: Platform)
        -> (r: Result<ExecFileMMapMut, MMapError>)
        requires
            sys.wf(),
        ensures
            match r {
                Ok(m) => {
                    &&& file_denied(addr_hint, conf, file.content().len(), off as nat,
                        Prot::ExecReadWrite, sys) is None
                    &&& m.wf()
                    &&& m.prot_state() == Prot::ExecReadWrite
                    &&& m.bytes() == file.content().subrange(off as int,
                        file.content().len() as int)
                    &&& m.region_addr() == resolve_addr(addr_hint, sys)
                    &&& m.platform() == sys
                },
                Err(e) => file_denied(addr_hint, conf, file.content().len(), off as nat,
                    Prot::ExecReadWrite, sys) == Some(e),
            },
    {
        if off > file.len() {
            return Err(MMapError::InvalidOffset);
        }
        let contents = tail_of(&file.bytes, off);
        match MMapBase::new(addr_hint, contents, Prot::ExecReadWrite, conf.value(), off, sys) {
            Ok(inner) => Ok(ExecFileMMapMut { inner }),
            Err(e) => Err(e),
        }
    }

    /// Convert this handle into a read-only handle over the same region.
    /// The handle is consumed; on failure it comes back untouched.
    pub fn into_read_only(self) -> (r: Result<FileMMap, (MMapError, ExecFileMMapMut)>)
        requires
            self.wf(),
        ensures
            match r {
                Ok(m) => {
                    &&& protect_allowed(Prot::ReadOnly, self.platform())
                    &&& m.wf()
                    &&& m.prot_state() == Prot::ReadOnly
                    &&& m.bytes() == self.bytes()
                    &&& m.region_addr() == self.region_addr()
                    &&& m.platform() == self.platform()
                },
                Err((e, s)) => {
                    &&& !protect_allowed(Prot::ReadOnly, self.platform())
                    &&& e == MMapError::OsMapping(EACCES)
                    &&& s == self
                },
            },
    {
        match self.inner.try_protect(Prot::ReadOnly) {
            Ok(inner) => Ok(FileMMap { inner }),
            Err((e, inner)) => Err((e, ExecFileMMapMut { inner })),
        }
    }

    /// Convert this handle into a read-write handle over the same region.
    /// The handle is consumed; on failure it comes back untouched.
    pub fn into_read_write(self) -> (r: Result<FileMMapMut, (MMapError, ExecFileMMapMut)>)
        requires
            self.wf(),
        ensures
            match r {
                Ok(m) => {
                    &&& protect_allowed(Prot::ReadWrite, self.platform())
                    &&& m.wf()
                    &&& m.prot_state() == Prot::ReadWrite
                    &&& m.bytes() == self.bytes()
                    &&& m.region_addr() == self.region_addr()
                    &&& m.platform() == self.platform()
                },
                Err((e, s)) => {
                    &&& !protect_allowed(Prot::ReadWrite, self.platform())
                    &&& e == MMapError::OsMapping(EACCES)
                    &&& s == self
                },
            },
    {
        match self.inner.try_protect(Prot::ReadWrite) {
            Ok(inner) => Ok(FileMMapMut { inner }),
            Err((e, inner)) => Err((e, ExecFileMMapMut { inner })),
        }
    }

    /// Convert this handle into an executable read-only handle over the same
    /// region.  The handle is consumed; on failure it comes back untouched.
    pub fn into_exec(self) -> (r: Result<ExecFileMMap, (MMapError, ExecFileMMapMut)>)
        requires
            self.wf(),
        ensures
            match r {
                Ok(m) => {
                    &&& protect_allowed(Prot::ExecReadOnly, self.platform())
                    &&& m.wf()
                    &&& m.prot_state() == Prot::ExecReadOnly
                    &&& m.bytes() == self.bytes()
                    &&& m.region_addr() == self.region_addr()
                    &&& m.platform() == self.platform()
                },
                Err((e, s)) => {
                    &&& !protect_allowed(Prot::ExecReadOnly, self.platform())
                    &&& e == MMapError::OsMapping(EACCES)
                    &&& s == self
                },
            },
    {
        match self.inner.try_protect(Prot::ExecReadOnly) {
            Ok(inner) => Ok(ExecFileMMap { inner }),
            Err((e, inner)) => Err((e, ExecFileMMapMut { inner })),
        }
    }
}

impl MMap for ExecFileMMapMut {
    closed spec fn bytes(&self) -> Seq<u8> {
        self.inner.bytes()
    }

    closed spec fn region_addr(&self) -> nat {
        self.inner.region_addr()
    }

    closed spec fn prot_state(&self) -> Prot {
        self.inner.prot_state()
    }

    closed spec fn platform(&self) -> Platform {
        self.inner.platform()
    }

    closed spec fn wf(&self) -> bool {
        self.inner.wf() && self.inner.prot_state() == Prot::ExecReadWrite
    }

    fn len(&self) -> usize {
        self.inner.len()
    }

    fn addr(&self) -> usize {
        self.inner.addr()
    }

    fn as_slice(&self) -> &[u8] {
        self.inner.as_slice()
    }

    fn byte_at(&self, i: usize) -> u8 {
        self.inner.byte_at(i)
    }

    fn to_vec(&self) -> Vec<u8> {
        self.inner.to_vec()
    }

    fn sync(&self, typ: MSyncType) -> Result<(), MMapError> {
        self.inner.sync(typ)
    }

    fn advise(&self, config: MAdviseConfig) -> Result<(), MMapError> {
        self.inner.advise(config)
    }

    fn unmap(self) -> Result<(), MMapError> {
        self.inner.unmap()
    }
}

impl MMapMut for ExecFileMMapMut {
    fn set_byte(&mut self, i: usize, b: u8) {
        self.inner.set_byte(i, b);
    }
}

impl MMapExec for ExecFileMMapMut {

}

impl MMapExecMut for ExecFileMMapMut {

}

} // verus!
