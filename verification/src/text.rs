//! Substring predicates over character sequences, with the lemmas that
//! carry them through concatenation. The law statements about the
//! rendered document are phrased with these.

use vstd::prelude::*;

verus! {

/// `s` begins with `p`.
pub open spec fn starts_with(s: Seq<char>, p: Seq<char>) -> bool {
    p.len() <= s.len() && s.subrange(0, p.len() as int) == p
}

/// `s` ends with `p`.
pub open spec fn ends_with(s: Seq<char>, p: Seq<char>) -> bool {
    p.len() <= s.len() && s.subrange(s.len() - p.len(), s.len() as int) == p
}

/// `x` occurs contiguously somewhere in `s`.
pub open spec fn contains_seq(s: Seq<char>, x: Seq<char>) -> bool {
    exists|i: int|
        0 <= i && i + x.len() <= s.len() && #[trigger] s.subrange(i, i + x.len()) == x
}

/// A prefix survives appending on the right.
pub proof fn lemma_starts_with_extend(s: Seq<char>, t: Seq<char>, p: Seq<char>)
    requires
        starts_with(s, p),
    ensures
        starts_with(s + t, p),
{
    assert((s + t).subrange(0, p.len() as int) =~= s.subrange(0, p.len() as int));
}

/// A concatenation begins with its left operand.
pub proof fn lemma_starts_with_concat(a: Seq<char>, b: Seq<char>)
    ensures
        starts_with(a + b, a),
{
    assert((a + b).subrange(0, a.len() as int) =~= a);
}

/// A concatenation ends with its right operand.
pub proof fn lemma_ends_with_concat(a: Seq<char>, b: Seq<char>)
    ensures
        ends_with(a + b, b),
{
    assert((a + b).subrange((a + b).len() - b.len(), (a + b).len() as int) =~= b);
}

/// An occurrence survives prepending.
pub proof fn lemma_contains_extend_left(p: Seq<char>, s: Seq<char>, x: Seq<char>)
    requires
        contains_seq(s, x),
    ensures
        contains_seq(p + s, x),
{
    let i = choose|i: int| 0 <= i && i + x.len() <= s.len() && #[trigger] s.subrange(i, i + x.len()) == x;
    assert((p + s).subrange(p.len() + i, p.len() + i + x.len() as int) =~= s.subrange(i, i + x.len()));
}

/// An occurrence survives appending.
pub proof fn lemma_contains_extend_right(s: Seq<char>, t: Seq<char>, x: Seq<char>)
    requires
        contains_seq(s, x),
    ensures
        contains_seq(s + t, x),
{
    let i = choose|i: int| 0 <= i && i + x.len() <= s.len() && #[trigger] s.subrange(i, i + x.len()) == x;
    assert((s + t).subrange(i, i + x.len()) =~= s.subrange(i, i + x.len()));
}

/// The middle operand of a three-way concatenation occurs in it.
pub proof fn lemma_contains_middle(p: Seq<char>, x: Seq<char>, q: Seq<char>)
    ensures
        contains_seq(p + x + q, x),
{
    assert((p + x + q).subrange(p.len() as int, p.len() + x.len() as int) =~= x);
}

/// The right operand of a concatenation occurs in it.
pub proof fn lemma_contains_tail(p: Seq<char>, x: Seq<char>)
    ensures
        contains_seq(p + x, x),
{
    assert((p + x).subrange(p.len() as int, p.len() + x.len() as int) =~= x);
}

} // verus!
