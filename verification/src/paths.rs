//! File-name extraction for blob paths.
//!
//! The contact store hands out a full filesystem path to a profile image;
//! the export only ever refers to the image by its final path component,
//! relative to the `blobs/` directory. The policy here is plain: the file
//! name is the suffix after the last `/` separator (empty if the path ends
//! in a separator), and the whole path if it contains no separator.

use vstd::prelude::*;
use vstd::string::StrSliceExecFns;

verus! {

/// The suffix of `p` after its last `/`, or all of `p` if it has none.
pub open spec fn file_name_of(p: Seq<char>) -> Seq<char>
    decreases p.len(),
{
    if p.len() == 0 {
        Seq::empty()
    } else if p.last() == '/' {
        Seq::empty()
    } else {
        file_name_of(p.drop_last()).push(p.last())
    }
}

proof fn lemma_file_name_no_slash(p: Seq<char>)
    requires
        forall|j: int| 0 <= j < p.len() ==> p[j] != '/',
    ensures
        file_name_of(p) == p,
    decreases p.len(),
{
    if p.len() == 0 {
        assert(file_name_of(p) =~= p);
    } else {
        lemma_file_name_no_slash(p.drop_last());
        assert(file_name_of(p) =~= p);
    }
}

proof fn lemma_file_name_after_slash(p: Seq<char>, k: int)
    requires
        0 <= k < p.len(),
        p[k] == '/',
        forall|j: int| k < j < p.len() ==> p[j] != '/',
    ensures
        file_name_of(p) == p.subrange(k + 1, p.len() as int),
    decreases p.len(),
{
    if k == p.len() - 1 {
        assert(file_name_of(p) =~= p.subrange(k + 1, p.len() as int));
    } else {
        lemma_file_name_after_slash(p.drop_last(), k);
        assert(file_name_of(p) =~= p.subrange(k + 1, p.len() as int));
    }
}

/// The final path component of `path`: everything after the last `/`.
pub fn file_name(path: &str) -> (r: String)
    ensures
        r@ == file_name_of(path@),
{
    let n = path.unicode_len();
    let mut i: usize = n;
    while i > 0
        invariant
            i <= n,
            n == path@.len(),
            forall|j: int| i <= j < n ==> path@[j] != '/',
        decreases i,
    {
        if path.get_char(i - 1) == '/' {
            proof {
                lemma_file_name_after_slash(path@, i - 1);
            }
            let tail = path.substring_char(i, n);
            return tail.to_owned();
        }
        i = i - 1;
    }
    proof {
        lemma_file_name_no_slash(path@);
    }
    path.to_owned()
}

} // verus!
