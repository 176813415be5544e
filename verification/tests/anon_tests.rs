use vmmap::{AddrHint, AnonMMap, AnonMMapMut, MMap, MMapConfig, MMapError, MMapMut, Platform};

fn platform() -> Platform {
    Platform { page_size: 4096, allow_write_exec: true }
}

fn make(config: MMapConfig) {
    let r = AnonMMap::new(AddrHint::Any, 12000, config, platform());
    assert_eq!(r.is_ok(), true);
}

#[test]
fn expect_no_os_error() {
    make(MMapConfig::new().map_shared());
    make(MMapConfig::new().map_private());
    make(MMapConfig::new().map_shared().map_private());
}

#[test]
fn memory_is_zeroed_mmap() {
    let m = AnonMMap::new(AddrHint::Any, 12000, MMapConfig::new().map_private(), platform())
        .unwrap();
    let s = m.to_vec();
    assert_eq!(s, vec![0x00u8; 12000]);
}

#[test]
fn memory_is_zeroed_mmap_mut() {
    let m = AnonMMapMut::new(AddrHint::Any, 12000, MMapConfig::new().map_private(), platform())
        .unwrap();
    let s = m.to_vec();
    assert_eq!(s, vec![0x00u8; 12000]);
}

#[test]
fn read_write_anon_mapped_memory() {
    let mut m = AnonMMapMut::new(AddrHint::Any, 12000, MMapConfig::new().map_private(),
        platform()).unwrap();
    let w = vec![0xffu8; 12000];
    for i in 0..w.len() {
        m.set_byte(i, w[i]);
    }
    let r = m.to_vec();
    assert_eq!(r, w);
}

#[test]
fn anon_needs_share_mode() {
    let r = AnonMMap::new(AddrHint::Any, 4096, MMapConfig::new(), platform());
    assert_eq!(r.err().unwrap(), MMapError::OsMapping(libc::EINVAL));
}

#[test]
fn zero_length_mapping_rejected() {
    let r = AnonMMap::new(AddrHint::Any, 0, MMapConfig::new().map_private(), platform());
    assert_eq!(r.err().unwrap(), MMapError::OsMapping(libc::EINVAL));
}

#[test]
fn fixed_placement_needs_aligned_hint() {
    let conf = MMapConfig::new().map_private().map_fixed();
    let r = AnonMMap::new(AddrHint::At(4097), 4096, conf, platform());
    assert_eq!(r.err().unwrap(), MMapError::OsMapping(libc::EINVAL));
    let ok = AnonMMap::new(AddrHint::At(8192), 4096, conf, platform());
    let m = ok.unwrap();
    assert_eq!(m.addr(), 8192);
}

#[test]
fn address_space_exhaustion() {
    // a page-aligned hint at the top of the address space leaves no room
    // for two pages
    let hint = AddrHint::At(usize::MAX - 4095);
    let r = AnonMMap::new(hint, 8192, MMapConfig::new().map_private(), platform());
    assert_eq!(r.err().unwrap(), MMapError::OsMapping(libc::ENOMEM));
}

#[test]
fn conversion_round_trip_preserves_bytes() {
    let mut m = AnonMMapMut::new(AddrHint::Any, 300, MMapConfig::new().map_private(),
        platform()).unwrap();
    for i in 0..300 {
        m.set_byte(i, (i % 251) as u8);
    }
    let written = m.to_vec();
    let ro = m.into_read_only().unwrap();
    assert_eq!(ro.to_vec(), written);
    let rw = ro.into_read_write().unwrap();
    assert_eq!(rw.to_vec(), written);
}

#[test]
fn rejected_write_exec_conversion_keeps_handle() {
    let sys = Platform { page_size: 4096, allow_write_exec: false };
    let mut m = AnonMMapMut::new(AddrHint::Any, 128, MMapConfig::new().map_private(), sys)
        .unwrap();
    for i in 0..128 {
        m.set_byte(i, 0xab);
    }
    let before = m.to_vec();
    match m.into_exec_mut() {
        Ok(_) => panic!("write+exec must be refused on this platform"),
        Err((e, mut back)) => {
            assert_eq!(e, MMapError::OsMapping(libc::EACCES));
            // the returned handle is fully usable with its original capabilities
            assert_eq!(back.to_vec(), before);
            back.set_byte(0, 0xcd);
            assert_eq!(back.byte_at(0), 0xcd);
            assert_eq!(back.len(), 128);
        }
    }
}

#[test]
fn rejected_write_exec_creation() {
    let sys = Platform { page_size: 4096, allow_write_exec: false };
    let r = vmmap::AnonExecutableMMapMut::new(AddrHint::Any, 128,
        MMapConfig::new().map_private(), sys);
    assert_eq!(r.err().unwrap(), MMapError::OsMapping(libc::EACCES));
}

#[test]
fn exec_conversions_accepted() {
    let m = AnonMMap::new(AddrHint::Any, 64, MMapConfig::new().map_private(), platform())
        .unwrap();
    let x = m.into_exec().unwrap();
    assert_eq!(x.len(), 64);
    let xm = x.into_exec_mut().unwrap();
    assert_eq!(xm.len(), 64);
    let back = xm.into_read_only().unwrap();
    assert_eq!(back.len(), 64);
}

#[test]
fn unmap_reports_success() {
    let m = AnonMMap::new(AddrHint::Any, 64, MMapConfig::new().map_private(), platform())
        .unwrap();
    assert!(m.unmap().is_ok());
}

#[test]
fn sync_and_advise_accepted() {
    let m = AnonMMap::new(AddrHint::Any, 64, MMapConfig::new().map_private(), platform())
        .unwrap();
    assert!(m.sync(vmmap::MSyncType::Async).is_ok());
    assert!(m.sync(vmmap::MSyncType::Sync).is_ok());
    assert!(m.sync(vmmap::MSyncType::SyncInvalidate).is_ok());
    assert!(m.sync(vmmap::MSyncType::AsyncInvalidate).is_ok());
    assert!(m.sync(vmmap::MSyncType::Invalidate).is_ok());
    let adv = vmmap::MAdviseConfig::new().madv_sequential().madv_willneed();
    assert!(m.advise(adv).is_ok());
}
