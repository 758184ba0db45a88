//! The derivation of the virtual file's name from the image path.

use qcow2_fuse::util::virtual_file_name;

fn name_of(path: &str) -> Vec<u8> {
    virtual_file_name(&path.as_bytes().to_vec())
}

#[test]
fn suffix_is_stripped() {
    assert_eq!(name_of("disk.qcow2"), b"disk".to_vec());
    assert_eq!(name_of("/path/to/image.qcow2"), b"image".to_vec());
    assert_eq!(name_of("a.b.qcow2"), b"a.b".to_vec());
}

#[test]
fn other_names_are_kept() {
    assert_eq!(name_of("disk"), b"disk".to_vec());
    assert_eq!(name_of("image.raw"), b"image.raw".to_vec());
    assert_eq!(name_of("/var/lib/images/guest"), b"guest".to_vec());
    assert_eq!(name_of("disk.qcow"), b"disk.qcow".to_vec());
}

#[test]
fn bare_suffix_is_not_stripped_to_nothing() {
    assert_eq!(name_of(".qcow2"), b".qcow2".to_vec());
    assert_eq!(name_of("/tmp/.qcow2"), b".qcow2".to_vec());
}

#[test]
fn trailing_separators_are_ignored() {
    assert_eq!(name_of("dir/"), b"dir".to_vec());
    assert_eq!(name_of("dir.qcow2///"), b"dir".to_vec());
}

#[test]
fn paths_without_a_base_name_fall_back() {
    assert_eq!(name_of(""), b"disk".to_vec());
    assert_eq!(name_of("/"), b"disk".to_vec());
    assert_eq!(name_of("////"), b"disk".to_vec());
    assert_eq!(name_of("."), b"disk".to_vec());
    assert_eq!(name_of(".."), b"disk".to_vec());
    assert_eq!(name_of("a/.."), b"disk".to_vec());
}
