use vstd::prelude::*;

verus! {

/// Shared-mapping bit: writes are visible to other processes mapping the
/// same region and, for a file mapping, reach the file system (the timing is
/// subject to kernel buffering).
pub const MAP_SHARED: i32 = 0x0001;

/// Private copy-on-write mapping bit: writes are visible to nobody else.
pub const MAP_PRIVATE: i32 = 0x0002;

/// Fixed-placement bit: the mapping must go at exactly the hinted address.
pub const MAP_FIXED: i32 = 0x0010;

/// Anonymous-mapping bit: no backing file, pages are kernel-zeroed.
pub const MAP_ANON: i32 = 0x0020;

/// Advice value: accesses will be in random order.
pub const MADV_RANDOM: i32 = 1;

/// Advice value: accesses will be sequential.
pub const MADV_SEQUENTIAL: i32 = 2;

/// Advice value: the range will be needed soon.
pub const MADV_WILLNEED: i32 = 3;

/// Advice value: the range is not needed any time soon.
pub const MADV_DONTNEED: i32 = 4;

/// Advice value: the pages may be reclaimed right away; the mapping stays
/// valid.
pub const MADV_FREE: i32 = 8;

/// An immutable set of mapping options, built by chaining option setters;
/// its value is the bitwise union of the options set.
#[derive(Debug, Clone, Copy)]
pub struct MMapConfig {
    flags: i32,
}

/// An immutable set of access-pattern advice options, built by chaining
/// option setters; its value is the bitwise union of the options set.
#[derive(Debug, Clone, Copy)]
pub struct MAdviseConfig {
    flags: i32,
}

impl MMapConfig {
    /// The flag word this option set stands for.
    pub closed spec fn flag_bits(self) -> i32 {
        self.flags
    }

    /// Create an empty option set.
    pub fn new() -> (c: Self)
        ensures
            c.flag_bits() == 0,
    {
        MMapConfig { flags: 0 }
    }

    /// The flag word to hand to the mapping primitive.
    pub fn value(&self) -> (v: i32)
        ensures
            v == self.flag_bits(),
    {
        self.flags
    }

    /// Add a flag to the set.
    fn set_flag(self, f: i32) -> (c: Self)
        ensures
            c.flag_bits() == self.flag_bits() | f,
    {
        MMapConfig { flags: self.flags | f }
    }

    /// Ask for a shared mapping: writes are visible to other processes
    /// mapping the same region and, for a file mapping, are carried through
    /// to the file system.
    pub fn map_shared(self) -> (c: Self)
        ensures
            c.flag_bits() == self.flag_bits() | MAP_SHARED,
    {
        self.set_flag(MAP_SHARED)
    }

    /// Ask for a private copy-on-write mapping: writes are not visible to
    /// other processes or the file system.
    pub fn map_private(self) -> (c: Self)
        ensures
            c.flag_bits() == self.flag_bits() | MAP_PRIVATE,
    {
        self.set_flag(MAP_PRIVATE)
    }

    /// Do not let the kernel pick any address other than the hinted one; the
    /// hint must then be a nonzero page-aligned address or the mapping call
    /// fails.  An existing mapping overlapping the requested range would lose
    /// the overlapped pages.
    pub fn map_fixed(self) -> (c: Self)
        ensures
            c.flag_bits() == self.flag_bits() | MAP_FIXED,
    {
        self.set_flag(MAP_FIXED)
    }
}

impl MAdviseConfig {
    /// The flag word this option set stands for.
    pub closed spec fn flag_bits(self) -> i32 {
        self.flags
    }

    /// Create an empty option set.
    pub fn new() -> (c: Self)
        ensures
            c.flag_bits() == 0,
    {
        MAdviseConfig { flags: 0 }
    }

    /// The flag word to hand to the advice primitive.
    pub fn value(&self) -> (v: i32)
        ensures
            v == self.flag_bits(),
    {
        self.flags
    }

    /// Add a flag to the set.
    fn set_flag(self, f: i32) -> (c: Self)
        ensures
            c.flag_bits() == self.flag_bits() | f,
    {
        MAdviseConfig { flags: self.flags | f }
    }

    /// Tell the kernel to expect sequential access to the mapped range.
    pub fn madv_sequential(self) -> (c: Self)
        ensures
            c.flag_bits() == self.flag_bits() | MADV_SEQUENTIAL,
    {
        self.set_flag(MADV_SEQUENTIAL)
    }

    /// Tell the kernel to expect random access to the mapped range.
    pub fn madv_random(self) -> (c: Self)
        ensures
            c.flag_bits() == self.flag_bits() | MADV_RANDOM,
    {
        self.set_flag(MADV_RANDOM)
    }

    /// Tell the kernel the mapped range will be needed soon.
    pub fn madv_willneed(self) -> (c: Self)
        ensures
            c.flag_bits() == self.flag_bits() | MADV_WILLNEED,
    {
        self.set_flag(MADV_WILLNEED)
    }

    /// Tell the kernel the mapped range is not needed any time soon: the
    /// underlying pages may be freed, and a later access repopulates them
    /// from the backing file or with zeroed pages.
    pub fn madv_dontneed(self) -> (c: Self)
        ensures
            c.flag_bits() == self.flag_bits() | MADV_DONTNEED,
    {
        self.set_flag(MADV_DONTNEED)
    }

    /// Tell the kernel the mapped pages can be reused right away; the mapped
    /// range itself remains valid.
    pub fn madv_free(self) -> (c: Self)
        ensures
            c.flag_bits() == self.flag_bits() | MADV_FREE,
    {
        self.set_flag(MADV_FREE)
    }
}

} // verus!
