//! The capability interface over the decoded image content: positioned
//! reads and a size query. The adapter is agnostic to which decoder
//! produced the source, and an in-memory source doubles as a reference
//! implementation for tests.

use vstd::prelude::*;

verus! {

/// A failure reported by the backing source, reduced to what the adapter
/// reads of it: the native operating-system error code, if any.
#[derive(Clone, Copy, Debug, PartialEq, Eq)]
pub struct SourceError {
    pub raw_os_error: Option<i32>,
}

/// The bytes a positioned read yields from `content`: up to `len` bytes
/// starting at `offset`, truncated at the end of the content, and empty
/// when the read starts at or past the end.
pub open spec fn read_range(content: Seq<u8>, offset: int, len: int) -> Seq<u8>
    recommends
        0 <= offset,
        0 <= len,
{
    if offset >= content.len() {
        Seq::empty()
    } else if offset + len <= content.len() {
        content.subrange(offset, offset + len)
    } else {
        content.subrange(offset, content.len() as int)
    }
}

/// A byte-addressable, read-only view of decoded image content.
///
/// `content` is the mathematical model of the bytes the source exposes, and
/// `size_known` whether the source can report their total. Either query may
/// fail transiently, so the contracts promise only what holds of every
/// successful outcome.
pub trait RandomAccessSource: Sized {
    /// The decoded content this source reads from.
    spec fn content(&self) -> Seq<u8>;

    /// Whether the source can determine the total content size.
    spec fn size_known(&self) -> bool;

    /// Query the total size of the content. A source that cannot resolve
    /// the size reports `Ok(None)`; a reported size is exact.
    fn total_size(&self) -> (r: Result<Option<u64>, SourceError>)
        ensures
            r matches Ok(Some(size)) ==> self.size_known() && size == self.content().len(),
            r matches Ok(None) ==> !self.size_known(),
    ;

    /// Read up to `len` bytes starting at `offset`. A successful read
    /// returns exactly the bytes of the content in that range, short only
    /// at the end of the content.
    fn read_at(&self, offset: u64, len: usize) -> (r: Result<Vec<u8>, SourceError>)
        ensures
            r matches Ok(bytes) ==> bytes@ == read_range(self.content(), offset as int, len as int),
    ;
}

/// Law: a read that starts at or past the end of the content yields no
/// bytes, and no error follows from the position alone.
pub proof fn lemma_read_past_end_is_empty(content: Seq<u8>, offset: int, len: int)
    requires
        0 <= len,
        content.len() <= offset,
    ensures
        read_range(content, offset, len).len() == 0,
{
}

/// Law: a read that would run past the end of the content is truncated to
/// the bytes that remain, not padded to the requested length.
pub proof fn lemma_read_truncated_at_end(content: Seq<u8>, offset: int, len: int)
    requires
        0 <= offset <= content.len(),
        content.len() < offset + len,
    ensures
        read_range(content, offset, len).len() == content.len() - offset,
{
}

/// Law: a read that lies wholly inside the content returns the requested
/// length exactly.
pub proof fn lemma_read_within_content(content: Seq<u8>, offset: int, len: int)
    requires
        0 <= offset,
        0 <= len,
        offset + len <= content.len(),
    ensures
        read_range(content, offset, len).len() == len,
{
}

/// An in-memory source: the content is a byte vector held directly, and
/// the size query can be configured to report the size or to leave it
/// indeterminate, so the adapter can be exercised against both behaviours.
pub struct MemSource {
    pub data: Vec<u8>,
    pub size_reported: bool,
}

impl RandomAccessSource for MemSource {
    open spec fn content(&self) -> Seq<u8> {
        self.data@
    }

    open spec fn size_known(&self) -> bool {
        self.size_reported
    }

    fn total_size(&self) -> (r: Result<Option<u64>, SourceError>)
        ensures
            r matches Ok(Some(size)) ==> self.size_known() && size == self.content().len(),
            r matches Ok(None) ==> !self.size_known(),
    {
        if self.size_reported {
            Ok(Some(self.data.len() as u64))
        } else {
            Ok(None)
        }
    }

    fn read_at(&self, offset: u64, len: usize) -> (r: Result<Vec<u8>, SourceError>)
        ensures
            r matches Ok(bytes) ==> bytes@ == read_range(self.content(), offset as int, len as int),
    {
        let total = self.data.len();
        if offset >= total as u64 {
            return Ok(Vec::new());
        }
        let start = offset as usize;
        let count = if len <= total - start {
            len
        } else {
            total - start
        };
        let mut out: Vec<u8> = Vec::new();
        let mut i: usize = 0;
        while i < count
            invariant
                i <= count,
                start + count <= total,
                total == self.data@.len(),
                out@.len() == i,
                forall|j: int| 0 <= j < i ==> out@[j] == self.data@[start + j],
            decreases count - i,
        {
            out.push(self.data[start + i]);
            i = i + 1;
        }
        proof {
            assert(out@ =~= read_range(self.content(), offset as int, len as int));
        }
        Ok(out)
    }
}

} // verus!
