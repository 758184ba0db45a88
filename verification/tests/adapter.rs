//! The filesystem adapter exercised against the in-memory source: lookups,
//! attribute synthesis, reads and directory listing, with a size-reporting
//! source and with one whose size stays indeterminate.

use qcow2_fuse::fs::{ReadAtFs, INO_DIR, INO_FILE};
use qcow2_fuse::fuse_util::{md_to_attrs, FileType, HostMetadata};
use qcow2_fuse::source::MemSource;

const ENOENT: i32 = 2;
const EPIPE: i32 = 32;

fn sample_metadata() -> HostMetadata {
    HostMetadata {
        atime_sec: 1_000,
        atime_nsec: 11,
        mtime_sec: 2_000,
        mtime_nsec: 22,
        ctime_sec: 3_000,
        ctime_nsec: 33,
        uid: 500,
        gid: 100,
    }
}

fn sample_fs(len: usize, size_reported: bool) -> ReadAtFs<MemSource> {
    let mut data = Vec::new();
    for i in 0..len {
        data.push((i % 251) as u8);
    }
    ReadAtFs {
        read: MemSource { data, size_reported },
        name: b"disk".to_vec(),
        attr: md_to_attrs(&sample_metadata()),
        foreground: false,
    }
}

#[test]
fn lookup_reports_size_and_blocks() {
    let fs = sample_fs(5000, true);
    let attr = fs.lookup(INO_DIR, &b"disk".to_vec()).unwrap();
    assert_eq!(attr.size, 5000);
    assert_eq!(attr.blocks, 10);
    assert_eq!(attr.ino, INO_FILE);
    assert_eq!(attr.kind, FileType::RegularFile);
    assert_eq!(attr.perm, 0o644);
    assert_eq!(attr.nlink, 1);
    assert_eq!(attr.uid, 500);
    assert_eq!(attr.gid, 100);
}

#[test]
fn lookup_rounds_blocks_up() {
    let fs = sample_fs(513, true);
    let attr = fs.lookup(INO_DIR, &b"disk".to_vec()).unwrap();
    assert_eq!(attr.size, 513);
    assert_eq!(attr.blocks, 2);
    let fs = sample_fs(512, true);
    let attr = fs.lookup(INO_DIR, &b"disk".to_vec()).unwrap();
    assert_eq!(attr.blocks, 1);
    let fs = sample_fs(0, true);
    let attr = fs.lookup(INO_DIR, &b"disk".to_vec()).unwrap();
    assert_eq!(attr.blocks, 0);
}

#[test]
fn lookup_unknown_name_fails() {
    let fs = sample_fs(5000, true);
    assert_eq!(fs.lookup(INO_DIR, &b"other".to_vec()), Err(ENOENT));
    assert_eq!(fs.lookup(INO_DIR, &b"dis".to_vec()), Err(ENOENT));
    assert_eq!(fs.lookup(INO_DIR, &b"".to_vec()), Err(ENOENT));
}

#[test]
fn lookup_under_non_root_fails() {
    let fs = sample_fs(5000, true);
    assert_eq!(fs.lookup(INO_FILE, &b"disk".to_vec()), Err(ENOENT));
    assert_eq!(fs.lookup(7, &b"disk".to_vec()), Err(ENOENT));
}

#[test]
fn getattr_root_serves_static_attrs() {
    let fs = sample_fs(5000, true);
    let attr = fs.getattr(INO_DIR).unwrap();
    assert_eq!(attr.ino, 1);
    assert_eq!(attr.kind, FileType::Directory);
    assert_eq!(attr.perm, 0o755);
    assert_eq!(attr.nlink, 2);
    assert_eq!(attr.size, 0);
    assert_eq!(attr.atime.sec, 1_000);
    assert_eq!(attr.mtime.nsec, 22);
    assert_eq!(attr.crtime.sec, 3_000);
}

#[test]
fn getattr_unknown_inode_fails() {
    let fs = sample_fs(5000, true);
    assert_eq!(fs.getattr(3), Err(ENOENT));
    assert_eq!(fs.getattr(0), Err(ENOENT));
}

#[test]
fn getattr_is_idempotent() {
    let fs = sample_fs(5000, true);
    let first = fs.getattr(INO_FILE).unwrap();
    let second = fs.getattr(INO_FILE).unwrap();
    assert_eq!(first.size, second.size);
    assert_eq!(first.blocks, second.blocks);
    assert_eq!(first, second);
}

#[test]
fn read_within_content_returns_requested_bytes() {
    let fs = sample_fs(5000, true);
    let bytes = fs.read(INO_FILE, 100, 50).unwrap();
    assert_eq!(bytes.len(), 50);
    for (i, b) in bytes.iter().enumerate() {
        assert_eq!(*b, ((100 + i) % 251) as u8);
    }
}

#[test]
fn read_past_end_returns_no_bytes() {
    let fs = sample_fs(5000, true);
    assert_eq!(fs.read(INO_FILE, 5000, 100).unwrap().len(), 0);
    assert_eq!(fs.read(INO_FILE, 9999, 1).unwrap().len(), 0);
}

#[test]
fn read_overrunning_end_is_truncated() {
    let fs = sample_fs(5000, true);
    let bytes = fs.read(INO_FILE, 4950, 100).unwrap();
    assert_eq!(bytes.len(), 50);
    assert_eq!(bytes[0], (4950 % 251) as u8);
}

#[test]
fn read_of_other_inode_fails() {
    let fs = sample_fs(5000, true);
    assert_eq!(fs.read(INO_DIR, 0, 10), Err(ENOENT));
    assert_eq!(fs.read(9, 0, 10), Err(ENOENT));
}

#[test]
fn readdir_lists_three_entries_in_order() {
    let fs = sample_fs(5000, true);
    let entries = fs.readdir(INO_DIR, 0).unwrap();
    assert_eq!(entries.len(), 3);
    assert_eq!(entries[0].name, b".".to_vec());
    assert_eq!(entries[0].ino, INO_DIR);
    assert_eq!(entries[0].kind, FileType::Directory);
    assert_eq!(entries[1].name, b"..".to_vec());
    assert_eq!(entries[1].ino, INO_DIR);
    assert_eq!(entries[1].kind, FileType::Directory);
    assert_eq!(entries[2].name, b"disk".to_vec());
    assert_eq!(entries[2].ino, INO_FILE);
    assert_eq!(entries[2].kind, FileType::RegularFile);
    assert_eq!(entries[2].offset, 2);
}

#[test]
fn readdir_at_nonzero_offset_is_empty() {
    let fs = sample_fs(5000, true);
    assert_eq!(fs.readdir(INO_DIR, 1).unwrap().len(), 0);
    assert_eq!(fs.readdir(INO_DIR, 3).unwrap().len(), 0);
}

#[test]
fn readdir_of_file_fails() {
    let fs = sample_fs(5000, true);
    assert_eq!(fs.readdir(INO_FILE, 0), Err(ENOENT));
}

#[test]
fn indeterminate_size_fails_attrs_with_pipe_error() {
    let fs = sample_fs(5000, false);
    assert_eq!(fs.getattr(INO_FILE), Err(EPIPE));
    assert_eq!(fs.lookup(INO_DIR, &b"disk".to_vec()), Err(EPIPE));
}

#[test]
fn indeterminate_size_still_serves_root_and_reads() {
    let fs = sample_fs(5000, false);
    assert!(fs.getattr(INO_DIR).is_ok());
    assert_eq!(fs.read(INO_FILE, 4950, 100).unwrap().len(), 50);
}
