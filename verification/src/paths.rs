//! Deriving the chart name: the final segment of a path, with trailing
//! separators ignored.

use vstd::prelude::*;

use crate::chars::{chars_to_string, str_to_chars, subvec};

verus! {

/// End of the last path segment of `p.take(i)`: trailing separators removed.
pub open spec fn end_without_slashes(p: Seq<char>, i: int) -> int
    decreases i,
{
    if 0 < i <= p.len() && p[i - 1] == '/' {
        end_without_slashes(p, i - 1)
    } else {
        i
    }
}

/// Start of the last path segment of `p.take(i)`.
pub open spec fn segment_start(p: Seq<char>, i: int) -> int
    decreases i,
{
    if 0 < i <= p.len() && p[i - 1] != '/' {
        segment_start(p, i - 1)
    } else {
        i
    }
}

pub proof fn lemma_end_without_slashes_bounds(p: Seq<char>, i: int)
    requires
        0 <= i <= p.len(),
    ensures
        0 <= end_without_slashes(p, i) <= i,
    decreases i,
{
    if 0 < i && p[i - 1] == '/' {
        lemma_end_without_slashes_bounds(p, i - 1);
    }
}

pub proof fn lemma_segment_start_bounds(p: Seq<char>, i: int)
    requires
        0 <= i <= p.len(),
    ensures
        0 <= segment_start(p, i) <= i,
    decreases i,
{
    if 0 < i && p[i - 1] != '/' {
        lemma_segment_start_bounds(p, i - 1);
    }
}

/// The final path segment of `p`, or `None` where the path has none (it is
/// empty or made of separators alone).
pub open spec fn final_segment(p: Seq<char>) -> Option<Seq<char>> {
    let e = end_without_slashes(p, p.len() as int);
    let s = segment_start(p, e);
    if s < e {
        Some(p.subrange(s, e))
    } else {
        None
    }
}

/// The final path segment of a path string.
pub fn final_path_segment(path: &str) -> (r: Option<String>)
    ensures
        match r {
            Some(n) => final_segment(path@) == Some(n@),
            None => final_segment(path@) is None,
        },
{
    let p = str_to_chars(path);
    let mut e = p.len();
    while e > 0 && p[e - 1] == '/'
        invariant
            0 <= e <= p@.len(),
            end_without_slashes(p@, p@.len() as int) == end_without_slashes(p@, e as int),
        decreases e,
    {
        e = e - 1;
    }
    let mut s = e;
    while s > 0 && p[s - 1] != '/'
        invariant
            0 <= s <= e <= p@.len(),
            segment_start(p@, e as int) == segment_start(p@, s as int),
        decreases s,
    {
        s = s - 1;
    }
    if s < e {
        let seg = subvec(&p, s, e);
        Some(chars_to_string(&seg))
    } else {
        None
    }
}

} // verus!
