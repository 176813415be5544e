use vmmap::{
    AddrHint, ExecFileMMap, ExecFileMMapMut, FileImage, FileMMap, FileMMapMut, MMap, MMapConfig,
    MMapError, MMapMut, MSyncType, Platform,
};

const PAGE: usize = 4096;

fn platform() -> Platform {
    Platform { page_size: PAGE, allow_write_exec: true }
}

fn file_of(cnt: usize) -> FileImage {
    let mut bytes = Vec::with_capacity(cnt);
    for i in 0..cnt {
        bytes.push((i.wrapping_mul(31) % 251) as u8);
    }
    FileImage::from_vec(bytes)
}

fn file_bytes(cnt: usize) -> Vec<u8> {
    let mut bytes = Vec::with_capacity(cnt);
    for i in 0..cnt {
        bytes.push((i.wrapping_mul(31) % 251) as u8);
    }
    bytes
}

#[test]
fn read_file_in_mmap() {
    let cnt = 100000;
    let tf = file_of(cnt);
    let mmap = FileMMap::new(AddrHint::Any, MMapConfig::new().map_private(), &tf, 0, platform())
        .unwrap();
    assert_eq!(tf.len(), mmap.len());
    assert_eq!(file_bytes(cnt), mmap.to_vec());
}

#[test]
fn read_file_in_mmap_mut() {
    let cnt = 100000;
    let tf = file_of(cnt);
    let mmap = FileMMapMut::new(AddrHint::Any, MMapConfig::new().map_private(), &tf, 0,
        platform()).unwrap();
    assert_eq!(tf.len(), mmap.len());
    assert_eq!(file_bytes(cnt), mmap.to_vec());
}

#[test]
fn read_file_in_exec_mmap() {
    let cnt = 100000;
    let tf = file_of(cnt);
    let mmap = ExecFileMMap::new(AddrHint::Any, MMapConfig::new().map_private(), &tf, 0,
        platform()).unwrap();
    assert_eq!(tf.len(), mmap.len());
    assert_eq!(file_bytes(cnt), mmap.to_vec());
}

#[test]
fn read_file_in_exec_mmap_mut() {
    let cnt = 100000;
    let tf = file_of(cnt);
    let mmap = ExecFileMMapMut::new(AddrHint::Any, MMapConfig::new().map_private(), &tf, 0,
        platform()).unwrap();
    assert_eq!(tf.len(), mmap.len());
    assert_eq!(file_bytes(cnt), mmap.to_vec());
}

fn filled_mmap_mut(cnt: usize) -> FileMMapMut {
    let tf = file_of(cnt);
    let mut mmap = FileMMapMut::new(AddrHint::Any, MMapConfig::new().map_private(), &tf, 0,
        platform()).unwrap();
    assert_eq!(tf.len(), mmap.len());
    assert_eq!(file_bytes(cnt), mmap.to_vec());
    // write all ones over the mapping.
    for i in 0..mmap.len() {
        mmap.set_byte(i, 0xff);
    }
    mmap
}

#[test]
fn write_file_via_mmap_mut() {
    let cnt = 100000;
    let mmap = filled_mmap_mut(cnt);
    let written = mmap.to_vec();
    for i in 0..written.len() {
        assert_eq!(written[i], 0xff);
    }
}

#[test]
fn write_file_and_flush_sync() {
    let cnt = 100000;
    let mmap = filled_mmap_mut(cnt);
    mmap.sync(MSyncType::Sync).unwrap();
}

#[test]
fn write_file_and_flush_async() {
    let cnt = 100000;
    let mmap = filled_mmap_mut(cnt);
    mmap.sync(MSyncType::Async).unwrap();
}

#[test]
fn write_file_and_flush_sync_invalidate() {
    let cnt = 100000;
    let mmap = filled_mmap_mut(cnt);
    mmap.sync(MSyncType::SyncInvalidate).unwrap();
}

#[test]
fn write_file_and_flush_async_invalidate() {
    let cnt = 100000;
    let mmap = filled_mmap_mut(cnt);
    mmap.sync(MSyncType::AsyncInvalidate).unwrap();
}

#[test]
fn write_file_and_invalidate_cached_data() {
    let cnt = 100000;
    let mmap = filled_mmap_mut(cnt);
    mmap.sync(MSyncType::Invalidate).unwrap();
}

#[test]
fn open_mmap_at_offset() {
    let cnt = 100000;
    let ps = PAGE;
    let tf = file_of(cnt);
    let mmap = FileMMap::new(AddrHint::Any, MMapConfig::new().map_private(), &tf, ps, platform())
        .unwrap();
    let buf = file_bytes(cnt);
    assert_eq!(buf[ps..].to_vec(), mmap.to_vec());
}

#[test]
fn open_mmap_mut_at_offset() {
    let cnt = 100000;
    let ps = PAGE;
    let tf = file_of(cnt);
    let mmap = FileMMapMut::new(AddrHint::Any, MMapConfig::new().map_private(), &tf, ps,
        platform()).unwrap();
    let buf = file_bytes(cnt);
    assert_eq!(buf[ps..].to_vec(), mmap.to_vec());
}

#[test]
fn open_exec_mmap_at_offset() {
    let cnt = 100000;
    let ps = PAGE;
    let tf = file_of(cnt);
    let mmap = ExecFileMMap::new(AddrHint::Any, MMapConfig::new().map_private(), &tf, ps,
        platform()).unwrap();
    let buf = file_bytes(cnt);
    assert_eq!(buf[ps..].to_vec(), mmap.to_vec());
}

#[test]
fn open_exec_mmap_mut_at_offset() {
    let cnt = 100000;
    let ps = PAGE;
    let tf = file_of(cnt);
    let mmap = ExecFileMMapMut::new(AddrHint::Any, MMapConfig::new().map_private(), &tf, ps,
        platform()).unwrap();
    let buf = file_bytes(cnt);
    assert_eq!(buf[ps..].to_vec(), mmap.to_vec());
}

#[test]
fn offset_points_beyond_file() {
    let cnt = 100;
    let off = PAGE;
    let tf = file_of(cnt);
    let res = FileMMap::new(AddrHint::Any, MMapConfig::new().map_private(), &tf, off, platform());
    assert!(res.is_err());
    if let Err(e) = res {
        assert_eq!(e, MMapError::InvalidOffset);
    }
}

/// The offset must be a multiple of the page size; a misaligned offset is
/// refused by the mapping call with an invalid-argument error.
#[test]
fn err_on_mmap_with_invalid_offset() {
    let cnt = 100000;
    let off = PAGE + 1;
    let tf = file_of(cnt);
    let res = FileMMap::new(AddrHint::Any, MMapConfig::new().map_private(), &tf, off, platform());
    assert!(res.is_err());
    if let Err(e) = res {
        assert_eq!(e, MMapError::OsMapping(libc::EINVAL));
    }
}

#[test]
fn conversions_from_file_mmap() {
    let cnt = 10;
    let tf = file_of(cnt);
    let conf = MMapConfig::new().map_private();
    let mmap = FileMMap::new(AddrHint::Any, conf, &tf, 0, platform()).unwrap();
    let _: FileMMapMut = mmap.into_read_write().unwrap();
    let mmap = FileMMap::new(AddrHint::Any, conf, &tf, 0, platform()).unwrap();
    let _: ExecFileMMap = mmap.into_exec().unwrap();
    let mmap = FileMMap::new(AddrHint::Any, conf, &tf, 0, platform()).unwrap();
    let _: ExecFileMMapMut = mmap.into_exec_mut().unwrap();
}

#[test]
fn conversions_from_file_mmap_mut() {
    let cnt = 10;
    let tf = file_of(cnt);
    let conf = MMapConfig::new().map_private();
    let mmap = FileMMapMut::new(AddrHint::Any, conf, &tf, 0, platform()).unwrap();
    let _: FileMMap = mmap.into_read_only().unwrap();
    let mmap = FileMMapMut::new(AddrHint::Any, conf, &tf, 0, platform()).unwrap();
    let _: ExecFileMMap = mmap.into_exec().unwrap();
    let mmap = FileMMapMut::new(AddrHint::Any, conf, &tf, 0, platform()).unwrap();
    let _: ExecFileMMapMut = mmap.into_exec_mut().unwrap();
}

#[test]
fn conversions_from_exec_file_mmap() {
    let cnt = 10;
    let tf = file_of(cnt);
    let conf = MMapConfig::new().map_private();
    let mmap = ExecFileMMap::new(AddrHint::Any, conf, &tf, 0, platform()).unwrap();
    let _: FileMMapMut = mmap.into_read_write().unwrap();
    let mmap = ExecFileMMap::new(AddrHint::Any, conf, &tf, 0, platform()).unwrap();
    let _: FileMMap = mmap.into_read_only().unwrap();
    let mmap = ExecFileMMap::new(AddrHint::Any, conf, &tf, 0, platform()).unwrap();
    let _: ExecFileMMapMut = mmap.into_exec_mut().unwrap();
}

#[test]
fn conversions_from_exec_file_mmap_mut() {
    let cnt = 10;
    let tf = file_of(cnt);
    let conf = MMapConfig::new().map_private();
    let mmap = ExecFileMMapMut::new(AddrHint::Any, conf, &tf, 0, platform()).unwrap();
    let _: FileMMapMut = mmap.into_read_write().unwrap();
    let mmap = ExecFileMMapMut::new(AddrHint::Any, conf, &tf, 0, platform()).unwrap();
    let _: FileMMap = mmap.into_read_only().unwrap();
    let mmap = ExecFileMMapMut::new(AddrHint::Any, conf, &tf, 0, platform()).unwrap();
    let _: ExecFileMMap = mmap.into_exec().unwrap();
}

#[test]
fn mapping_whole_file_at_its_length_is_rejected() {
    // offset equal to the file length passes the offset check but derives a
    // zero-length mapping, which the mapping call refuses.
    let tf = file_of(PAGE);
    let res = FileMMap::new(AddrHint::Any, MMapConfig::new().map_private(), &tf, PAGE,
        platform());
    assert_eq!(res.err().unwrap(), MMapError::OsMapping(libc::EINVAL));
}
