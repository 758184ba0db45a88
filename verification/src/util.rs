//! Process exit codes, and the derivation of the virtual file's name from
//! the path of the backing image.

use vstd::prelude::*;

use crate::fs::{dot_name, dotdot_name};

verus! {

/// The exit statuses the program distinguishes: success, a runtime error
/// such as an open, parse or mount failure, and a usage error.
#[derive(Clone, Copy, Debug, PartialEq, Eq, Structural)]
pub enum Exit {
    Success,
    Failure,
    Usage,
}

impl Exit {
    /// The numeric status handed to the operating system.
    pub open spec fn spec_code(self) -> i32 {
        match self {
            Exit::Success => 0,
            Exit::Failure => 1,
            Exit::Usage => 2,
        }
    }

    /// The numeric status handed to the operating system: zero for
    /// success, one for a runtime error, two for a usage error.
    pub fn code(self) -> (c: i32)
        ensures
            c == self.spec_code(),
    {
        match self {
            Exit::Success => 0,
            Exit::Failure => 1,
            Exit::Usage => 2,
        }
    }
}

/// The path separator byte, `/`.
pub const SEPARATOR: u8 = 47;

/// The byte string `.qcow2`, the container suffix stripped from the image
/// name.
pub open spec fn qcow2_suffix() -> Seq<u8> {
    seq![46u8, 113u8, 99u8, 111u8, 119u8, 50u8]
}

/// The byte string `disk`, the name used when the path yields no base
/// name of its own.
pub open spec fn default_name() -> Seq<u8> {
    seq![100u8, 105u8, 115u8, 107u8]
}

/// The path without its trailing separators.
pub open spec fn strip_trailing_separators(p: Seq<u8>) -> Seq<u8>
    decreases p.len(),
{
    if p.len() > 0 && p[p.len() - 1] == SEPARATOR {
        strip_trailing_separators(p.drop_last())
    } else {
        p
    }
}

/// The bytes after the last separator: the whole string when no separator
/// occurs in it.
pub open spec fn after_last_separator(p: Seq<u8>) -> Seq<u8>
    decreases p.len(),
{
    if p.len() == 0 {
        p
    } else if p[p.len() - 1] == SEPARATOR {
        Seq::empty()
    } else {
        after_last_separator(p.drop_last()).push(p[p.len() - 1])
    }
}

/// The name the virtual file carries: the base name of the image path
/// (trailing separators ignored), with the container suffix stripped when
/// a nonempty stem remains, and a fixed fallback when the path has no
/// usable base name at all.
pub open spec fn spec_virtual_file_name(path: Seq<u8>) -> Seq<u8> {
    let base = after_last_separator(strip_trailing_separators(path));
    if base.len() == 0 || base == dot_name() || base == dotdot_name() {
        default_name()
    } else if base.len() > qcow2_suffix().len() && base.subrange(
        base.len() - qcow2_suffix().len(),
        base.len() as int,
    ) == qcow2_suffix() {
        base.subrange(0, base.len() - qcow2_suffix().len())
    } else {
        base
    }
}

/// The suffix after the last separator, described by the position that
/// separator would have: everything from `start` on is free of separators,
/// and `start` is either the string's beginning or just past a separator.
proof fn lemma_after_last_separator(p: Seq<u8>, start: int)
    requires
        0 <= start <= p.len(),
        forall|j: int| start <= j < p.len() ==> p[j] != SEPARATOR,
        start == 0 || p[start - 1] == SEPARATOR,
    ensures
        after_last_separator(p) == p.subrange(start, p.len() as int),
    decreases p.len(),
{
    if p.len() == start {
        assert(after_last_separator(p) =~= p.subrange(start, p.len() as int));
    } else {
        assert(p[p.len() - 1] != SEPARATOR);
        let q = p.drop_last();
        lemma_after_last_separator(q, start);
        assert(q.subrange(start, q.len() as int) =~= p.subrange(start, p.len() - 1));
        assert(after_last_separator(p) =~= p.subrange(start, p.len() as int));
    }
}

/// Derive the virtual file's name from the image path, as raw file-name
/// bytes: the path's base name, with a `.qcow2` suffix stripped when a
/// nonempty stem remains, and `disk` when the path has no base name.
pub fn virtual_file_name(path: &Vec<u8>) -> (name: Vec<u8>)
    ensures
        name@ == spec_virtual_file_name(path@),
{
    proof {
        assert(path@.subrange(0, path@.len() as int) =~= path@);
    }
    let mut end: usize = path.len();
    while end > 0 && path[end - 1] == SEPARATOR
        invariant
            end <= path@.len(),
            strip_trailing_separators(path@) == strip_trailing_separators(
                path@.subrange(0, end as int),
            ),
        decreases end,
    {
        proof {
            assert(path@.subrange(0, end as int).drop_last() =~= path@.subrange(0, end - 1));
        }
        end = end - 1;
    }
    let ghost stripped = path@.subrange(0, end as int);
    proof {
        assert(strip_trailing_separators(path@) == stripped);
    }
    let mut start: usize = end;
    while start > 0 && path[start - 1] != SEPARATOR
        invariant
            start <= end <= path@.len(),
            forall|j: int| start <= j < end ==> path@[j] != SEPARATOR,
        decreases start,
    {
        start = start - 1;
    }
    proof {
        lemma_after_last_separator(stripped, start as int);
        assert(stripped.subrange(start as int, stripped.len() as int) =~= path@.subrange(
            start as int,
            end as int,
        ));
    }
    let mut base: Vec<u8> = Vec::new();
    let mut i: usize = start;
    while i < end
        invariant
            start <= i <= end <= path@.len(),
            base@.len() == i - start,
            forall|j: int| 0 <= j < base@.len() ==> base@[j] == path@[start + j],
        decreases end - i,
    {
        base.push(path[i]);
        i = i + 1;
    }
    proof {
        assert(base@ =~= path@.subrange(start as int, end as int));
        assert(base@ == after_last_separator(strip_trailing_separators(path@)));
    }
    let n = base.len();
    if n == 0 || (n == 1 && base[0] == 46) || (n == 2 && base[0] == 46 && base[1] == 46) {
        let mut fallback: Vec<u8> = Vec::new();
        fallback.push(100);
        fallback.push(105);
        fallback.push(115);
        fallback.push(107);
        proof {
            assert(fallback@ =~= default_name());
            if base@.len() == 1 && base@[0] == 46u8 {
                assert(base@ =~= dot_name());
            }
            if base@.len() == 2 && base@[0] == 46u8 && base@[1] == 46u8 {
                assert(base@ =~= dotdot_name());
            }
        }
        return fallback;
    }
    proof {
        assert(dot_name().len() == 1);
        assert(dotdot_name().len() == 2);
        assert(base@ != dot_name());
        assert(base@ != dotdot_name());
    }
    if n > 6 && base[n - 6] == 46 && base[n - 5] == 113 && base[n - 4] == 99 && base[n - 3] == 111
        && base[n - 2] == 119 && base[n - 1] == 50 {
        proof {
            assert(base@.subrange(n - 6, n as int) =~= qcow2_suffix());
        }
        base.truncate(n - 6);
        return base;
    }
    proof {
        if base@.len() > 6 && base@.subrange(base@.len() - 6, base@.len() as int)
            == qcow2_suffix() {
            let tail = base@.subrange(base@.len() - 6, base@.len() as int);
            assert(base@[n - 6] == tail[0] && tail[0] == 46u8);
            assert(base@[n - 5] == tail[1] && tail[1] == 113u8);
            assert(base@[n - 4] == tail[2] && tail[2] == 99u8);
            assert(base@[n - 3] == tail[3] && tail[3] == 111u8);
            assert(base@[n - 2] == tail[4] && tail[4] == 119u8);
            assert(base@[n - 1] == tail[5] && tail[5] == 50u8);
        }
    }
    base
}

} // verus!
