use vmmap::{
    AddrHint, AnonMMapMut, MMap, MMapConfig, MMapError, MMapMut, MMapReader, MMapWriter,
    Platform, SeekFrom,
};

fn platform() -> Platform {
    Platform { page_size: 4096, allow_write_exec: true }
}

fn setup(len: usize) -> AnonMMapMut {
    let mut mmap = AnonMMapMut::new(AddrHint::Any, len, MMapConfig::new().map_private(),
        platform()).unwrap();
    for i in 0..len {
        mmap.set_byte(i, (i % 0xff) as u8);
    }
    mmap
}

#[test]
fn write_then_read() {
    let mmap = setup(24123);
    let patt = (0..mmap.len()).map(|x| (x % 255) as u8).collect::<Vec<u8>>();
    let mut writer = MMapWriter::new(mmap);
    writer.write(&patt).unwrap();
    let mmap = writer.into_inner();

    let mut rbuf = vec![0xff; mmap.len()];
    let mut reader = MMapReader::new(mmap);
    reader.read(&mut rbuf).unwrap();

    assert_eq!(rbuf, patt);
}

#[test]
fn write_flush_read() {
    let mmap = setup(24123);
    let patt = (0..mmap.len()).map(|x| (x % 255) as u8).collect::<Vec<u8>>();
    let mut writer = MMapWriter::new(mmap);
    writer.write(&patt).unwrap();

    writer.flush().unwrap();
    let mmap = writer.into_inner();

    let mut rbuf = vec![0xff; mmap.len()];
    let mut reader = MMapReader::new(mmap);
    reader.read(&mut rbuf).unwrap();

    assert_eq!(rbuf, patt);
}

#[test]
fn read_all() {
    let len = 24999;
    let mmap = setup(len);
    let total = mmap.len();
    let mut reader = MMapReader::new(mmap);

    let mut buf = vec![0xff; total];
    let n = reader.read(&mut buf).unwrap();
    assert_eq!(n, total);
    for i in 0..n {
        assert_eq!(buf[i], (i % 255) as u8);
    }
}

#[test]
fn consecutive_reads() {
    let len = 24999;
    let mmap = setup(len);
    let mut reader = MMapReader::new(mmap);

    let mut buf = vec![0xff; 3];
    let n = reader.read(&mut buf).unwrap();
    assert_eq!(n, 3);
    assert_eq!(buf, vec![0, 1, 2]);

    let n = reader.read(&mut buf).unwrap();
    assert_eq!(n, 3);
    assert_eq!(buf, vec![3, 4, 5]);

    let n = reader.read(&mut buf).unwrap();
    assert_eq!(n, 3);
    assert_eq!(buf, vec![6, 7, 8]);
}

#[test]
fn buffer_longer_than_mmap() {
    let len = 24999;
    let mmap = setup(len);
    let total = mmap.len();
    let mut reader = MMapReader::new(mmap);

    let mut buf = vec![0xff; 2 * total];
    let n = reader.read(&mut buf).unwrap();
    assert_eq!(n, total); // should only read n == total either way!
    for i in 0..n {
        assert_eq!(buf[i], (i % 255) as u8);
    }
}

#[test]
fn read_nothing_on_end_of_file() {
    let len = 24999;
    let mmap = setup(len);
    let total = mmap.len();
    let mut reader = MMapReader::new(mmap);

    let mut buf = vec![0xff; total];
    let n = reader.read_to_end(&mut buf).unwrap();
    assert_eq!(n, total);

    // now, no more bytes should be read: read returns n == 0 bytes.
    let mut buf = vec![0xff; total];
    let n = reader.read(&mut buf).unwrap();
    assert_eq!(n, 0);
}

#[test]
fn seek_from_start() {
    let len = 24999;
    let mmap = setup(len);
    let mut reader = MMapReader::new(mmap);

    reader.seek(SeekFrom::Start(123)).unwrap();
    assert_eq!(123, reader.stream_position());

    // seek from start should always 'return' to start..
    reader.seek(SeekFrom::Start(4321)).unwrap();
    assert_eq!(4321, reader.stream_position());
}

/// Seek may go over the end of the file but any read thereafter
/// will return that no bytes were read.
#[test]
fn over_seek() {
    let len = 24999;
    let mmap = setup(len);
    let total = mmap.len() as u64;
    let mut reader = MMapReader::new(mmap);
    reader.seek(SeekFrom::Start(2 * total)).unwrap();
    assert_eq!(2 * total, reader.stream_position());

    let mut buf = vec![0xff; 10];
    let n = reader.read(&mut buf).unwrap();
    assert_eq!(n, 0);
}

#[test]
fn seek_before_start_rejected() {
    let mmap = setup(100);
    let mut reader = MMapReader::new(mmap);
    reader.seek(SeekFrom::Start(40)).unwrap();
    let r = reader.seek(SeekFrom::Current(-41));
    assert_eq!(r.err().unwrap(), MMapError::InvalidInput);
    // the cursor is untouched by the rejected seek
    assert_eq!(reader.stream_position(), 40);
    let r = reader.seek(SeekFrom::End(-101));
    assert_eq!(r.err().unwrap(), MMapError::InvalidInput);
    let p = reader.seek(SeekFrom::End(-100)).unwrap();
    assert_eq!(p, 0);
}

#[test]
fn seek_relative_moves_both_ways() {
    let mmap = setup(1000);
    let mut reader = MMapReader::new(mmap);
    assert_eq!(reader.seek(SeekFrom::Current(10)).unwrap(), 10);
    assert_eq!(reader.seek(SeekFrom::Current(-3)).unwrap(), 7);
    assert_eq!(reader.seek(SeekFrom::End(-1)).unwrap(), 999);
}

#[test]
fn write_at_cursor_position() {
    let mmap = setup(100);
    let mut writer = MMapWriter::new(mmap);
    writer.seek(SeekFrom::Start(10)).unwrap();
    let patt = vec![0xaau8; 5];
    let n = writer.write(&patt).unwrap();
    assert_eq!(n, 5);
    assert_eq!(writer.stream_position(), 15);
    let mmap = writer.into_inner();
    let bytes = mmap.to_vec();
    for i in 0..10 {
        assert_eq!(bytes[i], (i % 0xff) as u8);
    }
    for i in 10..15 {
        assert_eq!(bytes[i], 0xaa);
    }
    for i in 15..100 {
        assert_eq!(bytes[i], (i % 0xff) as u8);
    }
}

#[test]
fn write_past_end_writes_nothing() {
    let mmap = setup(50);
    let mut writer = MMapWriter::new(mmap);
    writer.seek(SeekFrom::Start(50)).unwrap();
    let n = writer.write(&vec![1u8, 2, 3]).unwrap();
    assert_eq!(n, 0);
    let mmap = writer.into_inner();
    for i in 0..50 {
        assert_eq!(mmap.byte_at(i), (i % 0xff) as u8);
    }
}

#[test]
fn write_truncated_at_region_end() {
    let mmap = setup(20);
    let mut writer = MMapWriter::new(mmap);
    writer.seek(SeekFrom::Start(15)).unwrap();
    let n = writer.write(&vec![9u8; 10]).unwrap();
    assert_eq!(n, 5);
    let mmap = writer.into_inner();
    for i in 15..20 {
        assert_eq!(mmap.byte_at(i), 9);
    }
}
