use vstd::prelude::*;

verus! {

/// Front-to-back iteration law.
///
/// By [`crate::slice::IterGen::next`]'s contract, an iterator whose view is
/// `s` has view `s.skip(k)` after `k` front productions. This law says what
/// that state means: the length reported before the next step is
/// `s.len() - k`; while anything remains, the next front production yields
/// `s[k]`, the `k`-th element of the source in order; and it leaves the view
/// at `s.skip(k + 1)`. So iterating front to back yields exactly the
/// elements of `s` in order, the count reported before each step is the
/// source length minus the steps taken, and the elements not yet produced —
/// what a surrendered iterator hands back — are exactly the last
/// `s.len() - k` elements of the source.
pub proof fn lemma_front_to_back_iteration<T>(s: Seq<T>, k: int)
    requires
        0 <= k <= s.len(),
    ensures
        s.skip(k).len() == s.len() - k,
        s.skip(k) == s.subrange(k, s.len() as int),
        k < s.len() ==> s.skip(k).first() == s[k],
        k < s.len() ==> s.skip(k).skip(1) == s.skip(k + 1),
{
    assert(s.skip(k) =~= s.subrange(k, s.len() as int));
    if k < s.len() {
        assert(s.skip(k).skip(1) =~= s.skip(k + 1));
    }
}

/// Peek idempotence law.
///
/// [`crate::slice::IterGen::as_slice`] borrows the iterator immutably and
/// returns content equal to the iterator's view, so the content it returns
/// is a function of the iterator's state alone: two peeks with no
/// intervening production both return the view `v` the iterator holds, and
/// so return identical content.
pub proof fn lemma_peek_idempotent<T>(v: Seq<T>, first: Seq<T>, second: Seq<T>)
    requires
        first == v,
        second == v,
    ensures
        first == second,
{
}

/// Alternating front/back production law.
///
/// By the contracts of [`crate::slice::IterGen::next`] and
/// [`crate::slice::IterGen::next_back`], an iterator whose view is `s` has
/// view `s.subrange(i, s.len() - j)` after any interleaving of `i` front
/// and `j` back productions. This law says what that state means: the
/// remaining count is `s.len() - i - j`, reaching zero exactly when
/// `i + j == s.len()`, that is, after exactly `s.len()` productions in
/// total; while anything remains, a front production yields the element at
/// position `i` and a back production the element at position
/// `s.len() - 1 - j`, each advancing its own boundary inward. Front
/// positions climb from `0` and back positions descend from `s.len() - 1`,
/// and while anything remains the two next positions satisfy
/// `i <= s.len() - 1 - j`, so the two directions never produce one element
/// twice.
pub proof fn lemma_alternating_production<T>(s: Seq<T>, i: int, j: int)
    requires
        0 <= i,
        0 <= j,
        i + j <= s.len(),
    ensures
        s.subrange(0, s.len() as int) == s,
        s.subrange(i, s.len() - j).len() == s.len() - i - j,
        i + j < s.len() ==> s.subrange(i, s.len() - j).first() == s[i],
        i + j < s.len() ==> s.subrange(i, s.len() - j).last() == s[s.len() - 1 - j],
        i + j < s.len() ==> i <= s.len() - 1 - j,
        i + j < s.len() ==> s.subrange(i, s.len() - j).skip(1) == s.subrange(
            i + 1,
            s.len() - j,
        ),
        i + j < s.len() ==> s.subrange(i, s.len() - j).drop_last() == s.subrange(
            i,
            s.len() - 1 - j,
        ),
{
    assert(s.subrange(0, s.len() as int) =~= s);
    if i + j < s.len() {
        assert(s.subrange(i, s.len() - j).skip(1) =~= s.subrange(i + 1, s.len() - j));
        assert(s.subrange(i, s.len() - j).drop_last() =~= s.subrange(i, s.len() - 1 - j));
    }
}

} // verus!
