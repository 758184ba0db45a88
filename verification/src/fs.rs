//! The filesystem adapter: answers entry lookup, attribute queries,
//! byte-range reads and directory listing for a mount that exposes exactly
//! one directory and one file, backed by a [`RandomAccessSource`].

use vstd::prelude::*;

use crate::fuse_util::{spec_fuse_errcode, fuse_errcode, FileAttr, FileType, Timespec, ENOENT, EPIPE};
use crate::source::{read_range, RandomAccessSource, SourceError};

verus! {

/// The inode of the only directory, the mount root.
pub const INO_DIR: u64 = 1;

/// The inode of the only file.
pub const INO_FILE: u64 = 2;

/// The block size the synthesized block count is based on.
pub const BLOCKSIZE: u64 = 512;

/// The served entries never change, so the validity hint handed to the
/// kernel is essentially infinite.
pub const TTL_SEC: i64 = 1_000_000_000;

/// The attribute time-to-live hint served with every entry and attribute
/// reply.
pub fn ttl() -> (t: Timespec)
    ensures
        t.sec == TTL_SEC,
        t.nsec == 0,
{
    Timespec { sec: TTL_SEC, nsec: 0 }
}

/// The number of `BLOCKSIZE`-byte blocks that cover `size` bytes: the
/// quotient, rounded up when a remainder is left over.
pub open spec fn blocks_for(size: int) -> int {
    if size % (BLOCKSIZE as int) == 0 {
        size / (BLOCKSIZE as int)
    } else {
        size / (BLOCKSIZE as int) + 1
    }
}

/// The attribute record synthesized for the virtual file once its size is
/// known: the file's fixed inode, the size and its block count, regular
/// read-only permissions and a single link, with every remaining field
/// taken from the host metadata snapshot `base`.
pub open spec fn file_attrs_spec(base: FileAttr, size: u64) -> FileAttr {
    FileAttr {
        ino: INO_FILE,
        size: size,
        blocks: blocks_for(size as int) as u64,
        kind: FileType::RegularFile,
        perm: 0o644,
        nlink: 1,
        ..base
    }
}

/// Law: the synthesized attributes report exactly the size they were built
/// from, and a block count equal to the size divided by the block size,
/// rounded up.
pub proof fn lemma_file_attr_size_and_blocks(base: FileAttr, size: u64)
    ensures
        file_attrs_spec(base, size).size == size,
        file_attrs_spec(base, size).blocks == (size as int + (BLOCKSIZE as int) - 1) / (BLOCKSIZE as int),
        (file_attrs_spec(base, size).blocks as int) * (BLOCKSIZE as int) >= size as int,
{
    let b = BLOCKSIZE as int;
    let s = size as int;
    assert(blocks_for(s) == (s + b - 1) / b) by (nonlinear_arith)
        requires
            s >= 0,
            b == 512,
            blocks_for(s) == if s % b == 0 { s / b } else { s / b + 1 },
    ;
    assert(blocks_for(s) * b >= s) by (nonlinear_arith)
        requires
            s >= 0,
            b == 512,
            blocks_for(s) == if s % b == 0 { s / b } else { s / b + 1 },
    ;
}

/// Synthesize the virtual file's attributes from the outcome of a size
/// query: a known size yields the full record, an indeterminate size the
/// pipe-like failure, and an I/O failure its translated code.
pub fn attrs_from_size_query(base: &FileAttr, query: Result<Option<u64>, SourceError>) -> (r:
    Result<FileAttr, i32>)
    ensures
        query matches Ok(Some(size)) ==> r == Ok::<FileAttr, i32>(file_attrs_spec(*base, size)),
        query matches Ok(None) ==> r == Err::<FileAttr, i32>(EPIPE),
        query matches Err(e) ==> r == Err::<FileAttr, i32>(spec_fuse_errcode(e.raw_os_error)),
{
    match query {
        Ok(Some(size)) => {
            let mut blocks = size / BLOCKSIZE;
            if size % BLOCKSIZE > 0 {
                blocks = blocks + 1;
            }
            let mut attr = *base;
            attr.ino = INO_FILE;
            attr.size = size;
            attr.blocks = blocks;
            attr.kind = FileType::RegularFile;
            attr.perm = 0o644;
            attr.nlink = 1;
            Ok(attr)
        },
        Ok(None) => Err(EPIPE),
        Err(e) => Err(fuse_errcode(e.raw_os_error)),
    }
}

/// Translate the outcome of a positioned read into the reply served to the
/// kernel: a successful read's bytes are served unchanged, and a failure
/// its translated code.
pub fn read_reply(outcome: Result<Vec<u8>, SourceError>) -> (r: Result<Vec<u8>, i32>)
    ensures
        outcome matches Ok(bytes) ==> r == Ok::<Vec<u8>, i32>(bytes),
        outcome matches Err(e) ==> r == Err::<Vec<u8>, i32>(spec_fuse_errcode(e.raw_os_error)),
{
    match outcome {
        Ok(bytes) => Ok(bytes),
        Err(e) => Err(fuse_errcode(e.raw_os_error)),
    }
}

/// One entry of a directory listing, as handed to the kernel: the entry's
/// inode, the continuation offset of the entry after it, its kind, and its
/// name as the bytes of the on-wire file name.
#[derive(Debug, PartialEq, Eq)]
pub struct DirEntry {
    pub ino: u64,
    pub offset: u64,
    pub kind: FileType,
    pub name: Vec<u8>,
}

/// The name of a directory's self entry.
pub open spec fn dot_name() -> Seq<u8> {
    seq![46u8]
}

/// The name of a directory's parent entry.
pub open spec fn dotdot_name() -> Seq<u8> {
    seq![46u8, 46u8]
}

/// Decide whether two byte strings are the same.
fn bytes_eq(a: &Vec<u8>, b: &Vec<u8>) -> (r: bool)
    ensures
        r == (a@ == b@),
{
    if a.len() != b.len() {
        return false;
    }
    let mut i: usize = 0;
    while i < a.len()
        invariant
            i <= a@.len(),
            a@.len() == b@.len(),
            forall|j: int| 0 <= j < i ==> a@[j] == b@[j],
        decreases a@.len() - i,
    {
        if a[i] != b[i] {
            return false;
        }
        i = i + 1;
    }
    proof {
        assert(a@ =~= b@);
    }
    true
}

/// Copy a byte string.
fn bytes_copy(a: &Vec<u8>) -> (r: Vec<u8>)
    ensures
        r@ == a@,
{
    let mut out: Vec<u8> = Vec::new();
    let mut i: usize = 0;
    while i < a.len()
        invariant
            i <= a@.len(),
            out@.len() == i,
            forall|j: int| 0 <= j < i ==> out@[j] == a@[j],
        decreases a@.len() - i,
    {
        out.push(a[i]);
        i = i + 1;
    }
    proof {
        assert(out@ =~= a@);
    }
    out
}

/// The filesystem adapter over a random-access source: one directory, one
/// file, read-only. `attr` is the host metadata snapshot taken at mount
/// time, served for the directory and reused for the file's static fields;
/// `name` is the virtual file's name, fixed at construction; `foreground`
/// records whether the session should interrupt itself when torn down.
pub struct ReadAtFs<I: RandomAccessSource> {
    pub read: I,
    pub name: Vec<u8>,
    pub attr: FileAttr,
    pub foreground: bool,
}

impl<I: RandomAccessSource> ReadAtFs<I> {
    /// Synthesize the virtual file's current attributes by querying the
    /// source for its total size. Success reports the source's exact
    /// content length; a source that cannot resolve its size fails the
    /// query.
    pub fn file_attrs(&self) -> (r: Result<FileAttr, i32>)
        ensures
            r matches Ok(attr) ==> {
                &&& self.read.size_known()
                &&& attr.size == self.read.content().len()
                &&& attr == file_attrs_spec(self.attr, attr.size)
            },
            !self.read.size_known() ==> r is Err,
    {
        attrs_from_size_query(&self.attr, self.read.total_size())
    }

    /// Look an entry up by name under a parent: only the virtual file's
    /// name directly under the root resolves, to the file's synthesized
    /// attributes; everything else is unknown.
    pub fn lookup(&self, parent: u64, name: &Vec<u8>) -> (r: Result<FileAttr, i32>)
        ensures
            !(parent == INO_DIR && name@ == self.name@) ==> r == Err::<FileAttr, i32>(ENOENT),
            parent == INO_DIR && name@ == self.name@ ==> {
                &&& (r matches Ok(attr) ==> {
                    &&& self.read.size_known()
                    &&& attr.size == self.read.content().len()
                    &&& attr == file_attrs_spec(self.attr, attr.size)
                })
                &&& (!self.read.size_known() ==> r is Err)
            },
    {
        if parent == INO_DIR && bytes_eq(name, &self.name) {
            self.file_attrs()
        } else {
            Err(ENOENT)
        }
    }

    /// Report an entry's attributes: the root directory's static record,
    /// the virtual file's synthesized one, and no other entry exists.
    pub fn getattr(&self, ino: u64) -> (r: Result<FileAttr, i32>)
        ensures
            ino == INO_DIR ==> r == Ok::<FileAttr, i32>(self.attr),
            ino == INO_FILE ==> {
                &&& (r matches Ok(attr) ==> {
                    &&& self.read.size_known()
                    &&& attr.size == self.read.content().len()
                    &&& attr == file_attrs_spec(self.attr, attr.size)
                })
                &&& (!self.read.size_known() ==> r is Err)
            },
            ino != INO_DIR && ino != INO_FILE ==> r == Err::<FileAttr, i32>(ENOENT),
    {
        if ino == INO_DIR {
            Ok(self.attr)
        } else if ino == INO_FILE {
            self.file_attrs()
        } else {
            Err(ENOENT)
        }
    }

    /// Serve a byte-range read: only the virtual file holds bytes, and a
    /// successful read returns exactly the bytes of the content in range,
    /// truncated at the end of the content.
    pub fn read(&self, ino: u64, offset: u64, size: u32) -> (r: Result<Vec<u8>, i32>)
        ensures
            ino != INO_FILE ==> r == Err::<Vec<u8>, i32>(ENOENT),
            r matches Ok(bytes) ==> {
                &&& ino == INO_FILE
                &&& bytes@ == read_range(self.read.content(), offset as int, size as int)
            },
    {
        if ino == INO_FILE {
            read_reply(self.read.read_at(offset, size as usize))
        } else {
            Err(ENOENT)
        }
    }

    /// List a directory: only the root can be listed. From the start it
    /// holds exactly three entries, in order the self entry, the parent
    /// entry (the root again, having no parent of its own) and the virtual
    /// file; the listing is never paginated, so any nonzero continuation
    /// offset yields no further entries.
    pub fn readdir(&self, ino: u64, offset: u64) -> (r: Result<Vec<DirEntry>, i32>)
        ensures
            ino != INO_DIR ==> r == Err::<Vec<DirEntry>, i32>(ENOENT),
            ino == INO_DIR && offset == 0 ==> (r matches Ok(entries) && {
                &&& entries@.len() == 3
                &&& entries@[0].ino == INO_DIR
                &&& entries@[0].offset == 0
                &&& entries@[0].kind == FileType::Directory
                &&& entries@[0].name@ == dot_name()
                &&& entries@[1].ino == INO_DIR
                &&& entries@[1].offset == 1
                &&& entries@[1].kind == FileType::Directory
                &&& entries@[1].name@ == dotdot_name()
                &&& entries@[2].ino == INO_FILE
                &&& entries@[2].offset == 2
                &&& entries@[2].kind == FileType::RegularFile
                &&& entries@[2].name@ == self.name@
            }),
            ino == INO_DIR && offset != 0 ==> (r matches Ok(entries) && entries@.len() == 0),
    {
        if ino == INO_DIR {
            let mut entries: Vec<DirEntry> = Vec::new();
            if offset == 0 {
                let mut dot: Vec<u8> = Vec::new();
                dot.push(46u8);
                let mut dotdot: Vec<u8> = Vec::new();
                dotdot.push(46u8);
                dotdot.push(46u8);
                entries.push(DirEntry { ino: INO_DIR, offset: 0, kind: FileType::Directory, name: dot });
                entries.push(
                    DirEntry { ino: INO_DIR, offset: 1, kind: FileType::Directory, name: dotdot },
                );
                entries.push(
                    DirEntry {
                        ino: INO_FILE,
                        offset: 2,
                        kind: FileType::RegularFile,
                        name: bytes_copy(&self.name),
                    },
                );
                proof {
                    assert(entries@[0].name@ =~= dot_name());
                    assert(entries@[1].name@ =~= dotdot_name());
                }
            }
            Ok(entries)
        } else {
            Err(ENOENT)
        }
    }
}

/// Law: attribute synthesis is deterministic. With the source unchanged,
/// any two successful attribute queries answered under this adapter's
/// contract report the same record, size and block count included.
pub proof fn lemma_attrs_idempotent<I: RandomAccessSource>(
    fs: &ReadAtFs<I>,
    r1: Result<FileAttr, i32>,
    r2: Result<FileAttr, i32>,
)
    requires
        r1 matches Ok(attr) ==> attr.size == fs.read.content().len() && attr == file_attrs_spec(
            fs.attr,
            attr.size,
        ),
        r2 matches Ok(attr) ==> attr.size == fs.read.content().len() && attr == file_attrs_spec(
            fs.attr,
            attr.size,
        ),
    ensures
        r1 is Ok && r2 is Ok ==> r1 == r2,
{
}

} // verus!


