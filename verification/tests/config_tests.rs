use vmmap::{ptr_is_page_aligned, AddrHint, MAdviseConfig, MMapConfig, MSyncType, Prot};

// The flag words the library computes feed the real mapping primitives, so
// each one is held against the platform's own constants.

#[test]
fn mmap_config_values() {
    assert_eq!(MMapConfig::new().value(), 0);
    assert_eq!(MMapConfig::new().map_shared().value(), libc::MAP_SHARED);
    assert_eq!(MMapConfig::new().map_private().value(), libc::MAP_PRIVATE);
    assert_eq!(MMapConfig::new().map_fixed().value(), libc::MAP_FIXED);
    assert_eq!(
        MMapConfig::new().map_private().map_fixed().value(),
        libc::MAP_PRIVATE | libc::MAP_FIXED
    );
    assert_eq!(vmmap::MAP_ANON, libc::MAP_ANON);
}

#[test]
fn madvise_config_values() {
    assert_eq!(MAdviseConfig::new().value(), 0);
    assert_eq!(MAdviseConfig::new().madv_sequential().value(), libc::MADV_SEQUENTIAL);
    assert_eq!(MAdviseConfig::new().madv_random().value(), libc::MADV_RANDOM);
    assert_eq!(MAdviseConfig::new().madv_willneed().value(), libc::MADV_WILLNEED);
    assert_eq!(MAdviseConfig::new().madv_dontneed().value(), libc::MADV_DONTNEED);
    assert_eq!(MAdviseConfig::new().madv_free().value(), libc::MADV_FREE);
}

#[test]
fn prot_flag_values() {
    assert_eq!(Prot::ReadOnly.as_flags(), libc::PROT_READ);
    assert_eq!(Prot::ReadWrite.as_flags(), libc::PROT_READ | libc::PROT_WRITE);
    assert_eq!(Prot::ExecReadOnly.as_flags(), libc::PROT_READ | libc::PROT_EXEC);
    assert_eq!(
        Prot::ExecReadWrite.as_flags(),
        libc::PROT_READ | libc::PROT_WRITE | libc::PROT_EXEC
    );
}

#[test]
fn msync_flag_values() {
    assert_eq!(MSyncType::Async.as_flag(), libc::MS_ASYNC);
    assert_eq!(MSyncType::Sync.as_flag(), libc::MS_SYNC);
    assert_eq!(MSyncType::SyncInvalidate.as_flag(), libc::MS_SYNC | libc::MS_INVALIDATE);
    assert_eq!(MSyncType::AsyncInvalidate.as_flag(), libc::MS_ASYNC | libc::MS_INVALIDATE);
    assert_eq!(MSyncType::Invalidate.as_flag(), libc::MS_INVALIDATE);
}

#[test]
fn addr_hint_values() {
    assert_eq!(AddrHint::Any.as_addr(), 0);
    assert_eq!(AddrHint::At(0x7000).as_addr(), 0x7000);
}

#[test]
fn page_alignment_check() {
    assert!(ptr_is_page_aligned(0, 4096));
    assert!(ptr_is_page_aligned(8192, 4096));
    assert!(!ptr_is_page_aligned(8193, 4096));
    assert!(ptr_is_page_aligned(3, 1));
}
