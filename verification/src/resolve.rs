//! Resolution of a possibly-relative path argument against the location of
//! the file that asked for it: pure path computation on byte strings, kept
//! apart from the filesystem's canonicalization step.

use vstd::prelude::*;
use vstd::slice::slice_to_vec;

verus! {

/// The path separator byte, `/`.
pub const SEPARATOR: u8 = 47;

/// Holds when a path starts at the filesystem root.
pub open spec fn is_absolute_spec(path: Seq<u8>) -> bool {
    path.len() > 0 && path[0] == SEPARATOR
}

/// The index of the last separator in a path, or -1 when it has none.
pub open spec fn last_sep_index(path: Seq<u8>) -> int
    decreases path.len(),
{
    if path.len() == 0 {
        -1
    } else if path.last() == SEPARATOR {
        path.len() - 1
    } else {
        last_sep_index(path.drop_last())
    }
}

/// `last_sep_index` names the last separator: it is in range, it sits on a
/// separator, and everything after it is separator-free.
pub proof fn lemma_last_sep_index(path: Seq<u8>)
    ensures
        -1 <= last_sep_index(path) < path.len(),
        last_sep_index(path) >= 0 ==> path[last_sep_index(path)] == SEPARATOR,
        forall|j: int| last_sep_index(path) < j < path.len() ==> path[j] != SEPARATOR,
    decreases path.len(),
{
    if path.len() > 0 && path.last() != SEPARATOR {
        lemma_last_sep_index(path.drop_last());
        assert forall|j: int|
            last_sep_index(path) < j < path.len() implies path[j] != SEPARATOR by {
            if j < path.len() - 1 {
                assert(path.drop_last()[j] == path[j]);
            }
        }
    }
}

/// The directory that holds the file at `path`: the bytes before the last
/// separator, the lone root when the last separator opens the path, and the
/// empty path when there is no separator at all (a bare file name resolves
/// against the working directory, so its parent contributes nothing).
pub open spec fn parent_dir_spec(path: Seq<u8>) -> Seq<u8> {
    let i = last_sep_index(path);
    if i < 0 {
        Seq::empty()
    } else if i == 0 {
        path.subrange(0, 1)
    } else {
        path.subrange(0, i)
    }
}

/// A base directory joined with a relative path: the two, with one separator
/// between them; an empty base contributes nothing.
pub open spec fn join_spec(base: Seq<u8>, rel: Seq<u8>) -> Seq<u8> {
    if base.len() == 0 {
        rel
    } else if base.last() == SEPARATOR {
        base + rel
    } else {
        base + seq![SEPARATOR] + rel
    }
}

/// Joins a base directory and a relative path with one separator between
/// them.
pub fn join_path(base: &[u8], rel: &[u8]) -> (r: Vec<u8>)
    ensures
        r@ == join_spec(base@, rel@),
{
    let mut r = slice_to_vec(base);
    if r.len() > 0 && r[r.len() - 1] != SEPARATOR {
        r.push(SEPARATOR);
    }
    let ghost head = r@;
    let mut t: usize = 0;
    while t < rel.len()
        invariant
            t <= rel@.len(),
            r@ == head + rel@.subrange(0, t as int),
        decreases rel@.len() - t,
    {
        r.push(rel[t]);
        proof {
            assert(r@ =~= head + rel@.subrange(0, t + 1 as int));
        }
        t = t + 1;
    }
    proof {
        assert(rel@.subrange(0, rel@.len() as int) =~= rel@);
        assert(r@ =~= join_spec(base@, rel@));
    }
    r
}

/// What a path argument resolves to, before canonicalization: an absolute
/// argument stands as written; a relative one is joined onto the parent
/// directory of the invocation-site file.
pub open spec fn resolve_spec(caller: Seq<u8>, input: Seq<u8>) -> Seq<u8> {
    if is_absolute_spec(input) {
        input
    } else {
        join_spec(parent_dir_spec(caller), input)
    }
}

/// Resolves a path argument against the invocation-site file at
/// `caller_path`: an absolute argument is returned as written, a relative one
/// joined onto the parent directory of `caller_path`. Pure computation; the
/// caller canonicalizes the result against the real filesystem.
pub fn resolve_path(caller_path: &[u8], input_path: &[u8]) -> (r: Vec<u8>)
    ensures
        r@ == resolve_spec(caller_path@, input_path@),
{
    if input_path.len() > 0 && input_path[0] == SEPARATOR {
        return slice_to_vec(input_path);
    }
    let mut j: usize = caller_path.len();
    while j > 0 && caller_path[j - 1] != SEPARATOR
        invariant
            j <= caller_path@.len(),
            forall|t: int| j <= t < caller_path@.len() ==> caller_path@[t] != SEPARATOR,
        decreases j,
    {
        j = j - 1;
    }
    proof {
        lemma_last_sep_index(caller_path@);
        if j == 0 {
            assert(last_sep_index(caller_path@) == -1);
        } else {
            assert(caller_path@[j - 1] == SEPARATOR);
            assert(last_sep_index(caller_path@) == j - 1);
        }
    }
    let plen: usize = if j <= 1 {
        j
    } else {
        j - 1
    };
    let parent = vstd::slice::slice_subrange(caller_path, 0, plen);
    proof {
        assert(parent@ =~= parent_dir_spec(caller_path@));
    }
    join_path(parent, input_path)
}

} // verus!
