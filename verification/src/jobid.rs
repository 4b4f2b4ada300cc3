//! Deriving a job identifier from a workflow execution handle.
//!
//! The workflow engine names each execution by an opaque handle whose
//! colon-delimited trailing segment is stable and unique; that segment is the
//! local job identifier. The convention lives in this one function, so it can
//! be swapped without touching the registry or the handlers.

use vstd::prelude::*;

verus! {

/// The segment of `handle` after its last `':'`: the whole handle when no
/// `':'` occurs, and empty when the handle ends with one.
pub open spec fn spec_job_id_of(handle: Seq<char>) -> Seq<char>
    decreases handle.len(),
{
    if handle.len() == 0 {
        handle
    } else if handle.last() == ':' {
        Seq::empty()
    } else {
        spec_job_id_of(handle.drop_last()).push(handle.last())
    }
}

/// The suffix of `h` from `i` on is exactly the trailing segment when no
/// `':'` occurs in it and `i` is either the start or just past a `':'`.
proof fn lemma_job_id_is_suffix(h: Seq<char>, i: int)
    requires
        0 <= i <= h.len(),
        forall|j: int| i <= j < h.len() ==> h[j] != ':',
        i > 0 ==> h[i - 1] == ':',
    ensures
        spec_job_id_of(h) == h.subrange(i, h.len() as int),
    decreases h.len(),
{
    if i == h.len() {
        assert(h.subrange(i, h.len() as int) =~= Seq::<char>::empty());
        if h.len() > 0 {
            assert(h.last() == ':');
        }
    } else {
        assert(h.last() != ':');
        lemma_job_id_is_suffix(h.drop_last(), i);
        assert(spec_job_id_of(h) == h.drop_last().subrange(i, h.len() - 1).push(h.last()));
        assert(h.drop_last().subrange(i, h.len() - 1).push(h.last()) =~= h.subrange(
            i,
            h.len() as int,
        ));
    }
}

/// The job identifier named by an execution handle: the segment after the
/// handle's last `':'`.
pub fn job_id_of_handle(handle: &str) -> (r: String)
    ensures
        r@ == spec_job_id_of(handle@),
{
    let n = handle.unicode_len();
    let mut i: usize = n;
    while i > 0
        invariant
            i <= n,
            n == handle@.len(),
            forall|j: int| i <= j < n ==> handle@[j] != ':',
        ensures
            i <= n,
            n == handle@.len(),
            forall|j: int| i <= j < n ==> handle@[j] != ':',
            i > 0 ==> handle@[i - 1] == ':',
        decreases i,
    {
        if handle.get_char(i - 1) == ':' {
            break;
        }
        i = i - 1;
    }
    proof {
        lemma_job_id_is_suffix(handle@, i as int);
    }
    let suffix = handle.substring_char(i, n);
    suffix.to_owned()
}

} // verus!
