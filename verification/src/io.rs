use vstd::prelude::*;

use crate::{MMap, MMapError, MMapMut, MSyncType};

verus! {

/// Where a seek starts from: the start of the region, its end, or the
/// current cursor position.
#[derive(Debug, Clone, Copy, PartialEq, Eq, Structural)]
pub enum SeekFrom {
    Start(u64),
    End(i64),
    Current(i64),
}

/// How many bytes a cursor transfer moves: everything from `cur` up to the
/// end of the region, capped by the caller's buffer length.  At or past the
/// end the count is zero — end-of-data is not an error.
pub open spec fn io_count(cur: nat, region_len: nat, buf_len: nat) -> nat {
    if cur >= region_len {
        0
    } else if buf_len <= region_len - cur {
        buf_len
    } else {
        (region_len - cur) as nat
    }
}

/// `data` with the range starting at `at` replaced by `patch`: what a write
/// leaves behind.
pub open spec fn overwritten(data: Seq<u8>, at: nat, patch: Seq<u8>) -> Seq<u8>
    recommends
        at + patch.len() <= data.len(),
{
    data.subrange(0, at as int) + patch + data.subrange(
        (at + patch.len()) as int,
        data.len() as int,
    )
}

/// Law: end-of-data.  A cursor at or past the end of the region transfers
/// zero bytes whatever the buffer length, for this read and for every read
/// after it — never an error.  With the read and write contracts this also
/// covers seeking past the end and then reading.
pub proof fn lemma_end_of_data(cur: nat, region_len: nat, buf_len: nat)
    requires
        cur >= region_len,
    ensures
        io_count(cur, region_len, buf_len) == 0,
{
}

/// Law: write/read round trip.  Writing a pattern over any range of a
/// region that can hold it moves the whole pattern, changes exactly that
/// range, and reading the same range back yields the pattern again, byte
/// for byte.
pub proof fn lemma_write_read_round_trip(data: Seq<u8>, at: nat, patt: Seq<u8>)
    requires
        at + patt.len() <= data.len(),
    ensures
        io_count(at, data.len(), patt.len()) == patt.len(),
        overwritten(data, at, patt).len() == data.len(),
        overwritten(data, at, patt).subrange(at as int, (at + patt.len()) as int) == patt,
{
    assert(overwritten(data, at, patt).subrange(at as int, (at + patt.len()) as int) =~= patt);
}

/// A byte-stream cursor reading from a mapped region.  The cursor owns the
/// handle while it reads and hands it back through [`MMapReader::into_inner`].
pub struct MMapReader<M: MMap> {
    cur: u64,
    mmap: M,
}

impl<M: MMap> MMapReader<M> {
    /// The cursor position.
    pub closed spec fn position(self) -> u64 {
        self.cur
    }

    /// The mapping being read.
    pub closed spec fn target(self) -> M {
        self.mmap
    }

    /// A reader is well formed when its mapping is.
    pub open spec fn wf(self) -> bool {
        self.target().wf()
    }

    /// Start reading `mmap` from position 0.
    pub fn new(mmap: M) -> (r: MMapReader<M>)
        ensures
            r.position() == 0,
            r.target() == mmap,
    {
        MMapReader { cur: 0, mmap }
    }

    /// Give the mapping back.
    pub fn into_inner(self) -> (m: M)
        ensures
            m == self.target(),
    {
        self.mmap
    }

    /// The current cursor position.
    pub fn stream_position(&self) -> (p: u64)
        ensures
            p == self.position(),
    {
        self.cur
    }

    /// Seek to an absolute position.  Seeking past the end is allowed; every
    /// read from there just transfers zero bytes.
    pub fn seek_from_start(&mut self, pos: u64) -> (r: Result<u64, MMapError>)
        ensures
            final(self).target() == old(self).target(),
            final(self).position() == pos,
            r == Ok::<u64, MMapError>(pos),
    {
        self.cur = pos;
        Ok(self.cur)
    }

    /// Seek relative to the end of the region.  A target before byte 0 is
    /// refused with `InvalidInput` and leaves the cursor where it was; so is
    /// a target beyond the largest representable position.
    pub fn seek_from_end(&mut self, pos: i64) -> (r: Result<u64, MMapError>)
        requires
            old(self).wf(),
        ensures
            final(self).target() == old(self).target(),
            ({
                let c = old(self).target().bytes().len() + pos;
                &&& (0 <= c <= u64::MAX ==> r == Ok::<u64, MMapError>(c as u64) && final(self).position() == c as u64)
                &&& (!(0 <= c <= u64::MAX) ==> r == Err::<u64, MMapError>(MMapError::InvalidInput)
                    && final(self).position() == old(self).position())
            }),
    {
        let len = self.mmap.len();
        let c: i128 = len as i128 + pos as i128;
        if c < 0 || c > u64::MAX as i128 {
            return Err(MMapError::InvalidInput);
        }
        self.cur = c as u64;
        Ok(self.cur)
    }

    /// Seek relative to the current position.  A target before byte 0 is
    /// refused with `InvalidInput` and leaves the cursor where it was; so is
    /// a target beyond the largest representable position.
    pub fn seek_from_current(&mut self, pos: i64) -> (r: Result<u64, MMapError>)
        ensures
            final(self).target() == old(self).target(),
            ({
                let c = old(self).position() + pos;
                &&& (0 <= c <= u64::MAX ==> r == Ok::<u64, MMapError>(c as u64) && final(self).position() == c as u64)
                &&& (!(0 <= c <= u64::MAX) ==> r == Err::<u64, MMapError>(MMapError::InvalidInput)
                    && final(self).position() == old(self).position())
            }),
    {
        let c: i128 = self.cur as i128 + pos as i128;
        if c < 0 || c > u64::MAX as i128 {
            return Err(MMapError::InvalidInput);
        }
        self.cur = c as u64;
        Ok(self.cur)
    }

    /// Seek from the start, the end, or the current position.
    pub fn seek(&mut self, pos: SeekFrom) -> (r: Result<u64, MMapError>)
        requires
            old(self).wf(),
        ensures
            final(self).target() == old(self).target(),
            ({
                let c = match pos {
                    SeekFrom::Start(n) => n as int,
                    SeekFrom::End(n) => old(self).target().bytes().len() + n,
                    SeekFrom::Current(n) => old(self).position() + n,
                };
                &&& (0 <= c <= u64::MAX ==> r == Ok::<u64, MMapError>(c as u64) && final(self).position() == c as u64)
                &&& (!(0 <= c <= u64::MAX) ==> r == Err::<u64, MMapError>(MMapError::InvalidInput)
                    && final(self).position() == old(self).position())
            }),
    {
        match pos {
            SeekFrom::Current(n) => self.seek_from_current(n),
            SeekFrom::Start(n) => self.seek_from_start(n),
            SeekFrom::End(n) => self.seek_from_end(n),
        }
    }

    /// Read from the cursor into the front of `buf`, at most `buf.len()`
    /// bytes, and advance the cursor by the count read.  At or past the end
    /// of the region this reads zero bytes and is no error.
    pub fn read(&mut self, buf: &mut Vec<u8>) -> (r: Result<usize, MMapError>)
        requires
            old(self).wf(),
        ensures
            final(self).target() == old(self).target(),
            ({
                let n = io_count(
                    old(self).position() as nat,
                    old(self).target().bytes().len(),
                    old(buf)@.len(),
                );
                &&& r == Ok::<usize, MMapError>(n as usize)
                &&& final(self).position() == old(self).position() + n
                &&& final(buf)@.len() == old(buf)@.len()
                &&& (n == 0 ==> final(buf)@ == old(buf)@)
                &&& (n > 0 ==> final(buf)@ == old(self).target().bytes().subrange(
                    old(self).position() as int,
                    old(self).position() + n,
                ) + old(buf)@.subrange(n as int, old(buf)@.len() as int))
            }),
    {
        let ghost data = self.mmap.bytes();
        let ghost orig = buf@;
        if buf.len() == 0 {
            return Ok(0);
        }
        let len = self.mmap.len();
        if self.cur >= len as u64 {
            return Ok(0);
        }
        let cpos = self.cur as usize;
        let avail = len - cpos;
        let n = if buf.len() < avail {
            buf.len()
        } else {
            avail
        };
        let mut i: usize = 0;
        while i < n
            invariant
                i <= n,
                self.mmap.wf(),
                self.mmap.bytes() == data,
                cpos + n <= data.len(),
                data.len() <= usize::MAX,
                cpos as int == self.cur as int,
                n <= buf@.len(),
                buf@.len() == orig.len(),
                buf@ =~= data.subrange(cpos as int, cpos + i) + orig.subrange(
                    i as int,
                    orig.len() as int,
                ),
            decreases n - i,
        {
            let b = self.mmap.byte_at(cpos + i);
            buf.set(i, b);
            assert(buf@ =~= data.subrange(cpos as int, cpos + i + 1) + orig.subrange(
                i + 1,
                orig.len() as int,
            ));
            i = i + 1;
        }
        self.cur = self.cur + n as u64;
        Ok(n)
    }

    /// Read everything from the cursor to the end of the region, appending
    /// it to `buf`, and leave the cursor at the end.  At or past the end
    /// this reads zero bytes and is no error.
    pub fn read_to_end(&mut self, buf: &mut Vec<u8>) -> (r: Result<usize, MMapError>)
        requires
            old(self).wf(),
        ensures
            final(self).target() == old(self).target(),
            ({
                let len = old(self).target().bytes().len();
                let n = if old(self).position() >= len {
                    0
                } else {
                    len - old(self).position()
                };
                &&& r == Ok::<usize, MMapError>(n as usize)
                &&& final(self).position() == old(self).position() + n
                &&& (n == 0 ==> final(buf)@ == old(buf)@)
                &&& (n > 0 ==> final(buf)@ == old(buf)@ + old(self).target().bytes().subrange(
                    old(self).position() as int,
                    len as int,
                ))
            }),
    {
        let ghost data = self.mmap.bytes();
        let ghost orig = buf@;
        let len = self.mmap.len();
        if self.cur >= len as u64 {
            return Ok(0);
        }
        let cpos = self.cur as usize;
        let n = len - cpos;
        let mut i: usize = 0;
        while i < n
            invariant
                i <= n,
                self.mmap.wf(),
                self.mmap.bytes() == data,
                cpos + n == data.len(),
                data.len() <= usize::MAX,
                cpos as int == self.cur as int,
                buf@ =~= orig + data.subrange(cpos as int, cpos + i),
            decreases n - i,
        {
            let b = self.mmap.byte_at(cpos + i);
            buf.push(b);
            assert(buf@ =~= orig + data.subrange(cpos as int, cpos + i + 1));
            i = i + 1;
        }
        self.cur = self.cur + n as u64;
        Ok(n)
    }
}

/// A byte-stream cursor writing into a mapped region that allows writes.
/// The cursor owns the handle while it writes and hands it back through
/// [`MMapWriter::into_inner`].
pub struct MMapWriter<M: MMapMut> {
    cur: u64,
    mmap: M,
}

impl<M: MMapMut> MMapWriter<M> {
    /// The cursor position.
    pub closed spec fn position(self) -> u64 {
        self.cur
    }

    /// The mapping being written.
    pub closed spec fn target(self) -> M {
        self.mmap
    }

    /// A writer is well formed when its mapping is.
    pub open spec fn wf(self) -> bool {
        self.target().wf()
    }

    /// Start writing `mmap` at position 0.
    pub fn new(mmap: M) -> (r: MMapWriter<M>)
        ensures
            r.position() == 0,
            r.target() == mmap,
    {
        MMapWriter { cur: 0, mmap }
    }

    /// Give the mapping back.
    pub fn into_inner(self) -> (m: M)
        ensures
            m == self.target(),
    {
        self.mmap
    }

    /// The current cursor position.
    pub fn stream_position(&self) -> (p: u64)
        ensures
            p == self.position(),
    {
        self.cur
    }

    /// Seek to an absolute position.  Seeking past the end is allowed; every
    /// write from there just transfers zero bytes.
    pub fn seek_from_start(&mut self, pos: u64) -> (r: Result<u64, MMapError>)
        ensures
            final(self).target() == old(self).target(),
            final(self).position() == pos,
            r == Ok::<u64, MMapError>(pos),
    {
        self.cur = pos;
        Ok(self.cur)
    }

    /// Seek relative to the end of the region.  A target before byte 0 is
    /// refused with `InvalidInput` and leaves the cursor where it was; so is
    /// a target beyond the largest representable position.
    pub fn seek_from_end(&mut self, pos: i64) -> (r: Result<u64, MMapError>)
        requires
            old(self).wf(),
        ensures
            final(self).target() == old(self).target(),
            ({
                let c = old(self).target().bytes().len() + pos;
                &&& (0 <= c <= u64::MAX ==> r == Ok::<u64, MMapError>(c as u64) && final(self).position() == c as u64)
                &&& (!(0 <= c <= u64::MAX) ==> r == Err::<u64, MMapError>(MMapError::InvalidInput)
                    && final(self).position() == old(self).position())
            }),
    {
        let len = self.mmap.len();
        let c: i128 = len as i128 + pos as i128;
        if c < 0 || c > u64::MAX as i128 {
            return Err(MMapError::InvalidInput);
        }
        self.cur = c as u64;
        Ok(self.cur)
    }

    /// Seek relative to the current position.  A target before byte 0 is
    /// refused with `InvalidInput` and leaves the cursor where it was; so is
    /// a target beyond the largest representable position.
    pub fn seek_from_current(&mut self, pos: i64) -> (r: Result<u64, MMapError>)
        ensures
            final(self).target() == old(self).target(),
            ({
                let c = old(self).position() + pos;
                &&& (0 <= c <= u64::MAX ==> r == Ok::<u64, MMapError>(c as u64) && final(self).position() == c as u64)
                &&& (!(0 <= c <= u64::MAX) ==> r == Err::<u64, MMapError>(MMapError::InvalidInput)
                    && final(self).position() == old(self).position())
            }),
    {
        let c: i128 = self.cur as i128 + pos as i128;
        if c < 0 || c > u64::MAX as i128 {
            return Err(MMapError::InvalidInput);
        }
        self.cur = c as u64;
        Ok(self.cur)
    }

    /// Seek from the start, the end, or the current position.
    pub fn seek(&mut self, pos: SeekFrom) -> (r: Result<u64, MMapError>)
        requires
            old(self).wf(),
        ensures
            final(self).target() == old(self).target(),
            ({
                let c = match pos {
                    SeekFrom::Start(n) => n as int,
                    SeekFrom::End(n) => old(self).target().bytes().len() + n,
                    SeekFrom::Current(n) => old(self).position() + n,
                };
                &&& (0 <= c <= u64::MAX ==> r == Ok::<u64, MMapError>(c as u64) && final(self).position() == c as u64)
                &&& (!(0 <= c <= u64::MAX) ==> r == Err::<u64, MMapError>(MMapError::InvalidInput)
                    && final(self).position() == old(self).position())
            }),
    {
        match pos {
            SeekFrom::Current(n) => self.seek_from_current(n),
            SeekFrom::End(n) => self.seek_from_end(n),
            SeekFrom::Start(n) => self.seek_from_start(n),
        }
    }

    /// Write the front of `buf` at the cursor, at most up to the end of the
    /// region, and advance the cursor by the count written.  At or past the
    /// end of the region this writes zero bytes and is no error.
    pub fn write(&mut self, buf: &Vec<u8>) -> (r: Result<usize, MMapError>)
        requires
            old(self).wf(),
        ensures
            final(self).wf(),
            final(self).target().region_addr() == old(self).target().region_addr(),
            final(self).target().prot_state() == old(self).target().prot_state(),
            final(self).target().platform() == old(self).target().platform(),
            ({
                let n = io_count(
                    old(self).position() as nat,
                    old(self).target().bytes().len(),
                    buf@.len(),
                );
                &&& r == Ok::<usize, MMapError>(n as usize)
                &&& final(self).position() == old(self).position() + n
                &&& (n == 0 ==> final(self).target().bytes() == old(self).target().bytes())
                &&& (n > 0 ==> final(self).target().bytes() == overwritten(
                    old(self).target().bytes(),
                    old(self).position() as nat,
                    buf@.subrange(0, n as int),
                ))
            }),
    {
        let ghost data = self.mmap.bytes();
        let ghost addr0 = self.mmap.region_addr();
        let ghost prot0 = self.mmap.prot_state();
        let ghost sys0 = self.mmap.platform();
        if buf.len() == 0 {
            return Ok(0);
        }
        let len = self.mmap.len();
        if self.cur >= len as u64 {
            return Ok(0);
        }
        let cpos = self.cur as usize;
        let avail = len - cpos;
        let n = if buf.len() < avail {
            buf.len()
        } else {
            avail
        };
        let mut i: usize = 0;
        while i < n
            invariant
                i <= n,
                self.mmap.wf(),
                self.mmap.bytes().len() == data.len(),
                self.mmap.region_addr() == addr0,
                self.mmap.prot_state() == prot0,
                self.mmap.platform() == sys0,
                cpos + n <= data.len(),
                data.len() <= usize::MAX,
                cpos as int == self.cur as int,
                n <= buf@.len(),
                self.mmap.bytes() =~= data.subrange(0, cpos as int) + buf@.subrange(0, i as int)
                    + data.subrange(cpos + i, data.len() as int),
            decreases n - i,
        {
            let b = buf[i];
            self.mmap.set_byte(cpos + i, b);
            assert(self.mmap.bytes() =~= data.subrange(0, cpos as int) + buf@.subrange(0, i + 1)
                + data.subrange(cpos + i + 1, data.len() as int));
            i = i + 1;
        }
        self.cur = self.cur + n as u64;
        assert(self.mmap.bytes() =~= overwritten(data, cpos as nat, buf@.subrange(0, n as int)));
        Ok(n)
    }

    /// Flush the written bytes: delegates to the region's blocking flush
    /// mode.
    pub fn flush(&mut self) -> (r: Result<(), MMapError>)
        requires
            old(self).wf(),
        ensures
            *final(self) == *old(self),
            r is Ok,
    {
        self.mmap.sync(MSyncType::Sync)
    }
}

} // verus!
