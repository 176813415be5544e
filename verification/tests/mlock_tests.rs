use vmmap::{AddrHint, AnonMMapMut, IncoreInfo, MLock, MMap, MMapConfig, MMapError, Platform};

const PAGE: usize = 4096;

fn platform() -> Platform {
    Platform { page_size: PAGE, allow_write_exec: true }
}

#[test]
fn atest() {
    let ahint = AddrHint::Any;
    let conf = MMapConfig::new().map_private();
    let mmap = AnonMMapMut::new(ahint, 999999, conf, platform()).unwrap();
    let icinfo = IncoreInfo::read(mmap.addr(), mmap.len(), PAGE).unwrap();
    // one status byte per page covering the region: ceil(999999 / 4096)
    assert_eq!(icinfo.flagvec_len(), 245);
}

#[test]
fn residency_rejects_misaligned_address() {
    let r = IncoreInfo::read(PAGE + 1, 8 * PAGE, PAGE);
    assert_eq!(r.err().unwrap(), MMapError::InvalidInput);
}

#[test]
fn residency_reports_every_page() {
    let info = IncoreInfo::read(PAGE, 2 * PAGE + 1, PAGE).unwrap();
    assert_eq!(info.flagvec_len(), 3);
    assert_eq!(info.page_flagbyte(0), Some(1));
    assert_eq!(info.page_flagbyte(2), Some(1));
    assert_eq!(info.page_flagbyte(3), None);
}

#[test]
fn residency_of_empty_range() {
    let info = IncoreInfo::read(PAGE, 0, PAGE).unwrap();
    assert_eq!(info.flagvec_len(), 0);
    assert_eq!(info.page_flagbyte(0), None);
}

#[test]
fn lock_and_unlock() {
    let mmap = AnonMMapMut::new(AddrHint::Any, 3 * PAGE, MMapConfig::new().map_private(),
        platform()).unwrap();
    let lock = MLock::new(&mmap).unwrap();
    assert!(lock.unlock().is_ok());
}
