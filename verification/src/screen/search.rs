//! Searching an index range for the first or the last index of some kind.

use vstd::prelude::*;

verus! {

/// The least index in `j..n` that satisfies `p`, or `n` where none does.
pub open spec fn first_from(p: spec_fn(int) -> bool, j: int, n: int) -> int
    decreases n - j,
{
    if j >= n {
        n
    } else if p(j) {
        j
    } else {
        first_from(p, j + 1, n)
    }
}

/// The greatest index in `0..j` that satisfies `p`, or -1 where none does.
pub open spec fn last_before(p: spec_fn(int) -> bool, j: int) -> int
    decreases j,
{
    if j <= 0 {
        -1
    } else if p(j - 1) {
        j - 1
    } else {
        last_before(p, j - 1)
    }
}

/// What `first_from` returns satisfies `p`, and nothing before it does.
pub proof fn lemma_first_from(p: spec_fn(int) -> bool, j: int, n: int)
    requires
        j <= n,
    ensures
        j <= first_from(p, j, n) <= n,
        first_from(p, j, n) < n ==> p(first_from(p, j, n)),
        forall|i: int| j <= i < first_from(p, j, n) ==> !#[trigger] p(i),
    decreases n - j,
{
    if j < n && !p(j) {
        lemma_first_from(p, j + 1, n);
    }
}

/// An index that satisfies `p` and has nothing before it that does is what
/// `first_from` returns.
pub proof fn lemma_first_from_is(p: spec_fn(int) -> bool, j: int, n: int, r: int)
    requires
        j <= r <= n,
        r < n ==> p(r),
        forall|i: int| j <= i < r ==> !#[trigger] p(i),
    ensures
        first_from(p, j, n) == r,
    decreases r - j,
{
    if j < r {
        lemma_first_from_is(p, j + 1, n, r);
    }
}

/// What `last_before` returns satisfies `p`, and nothing behind it does.
pub proof fn lemma_last_before(p: spec_fn(int) -> bool, j: int)
    ensures
        -1 <= last_before(p, j),
        j >= 0 ==> last_before(p, j) < j,
        last_before(p, j) >= 0 ==> p(last_before(p, j)),
        forall|i: int| last_before(p, j) < i < j && 0 <= i ==> !#[trigger] p(i),
    decreases j,
{
    if j > 0 && !p(j - 1) {
        lemma_last_before(p, j - 1);
    }
}

/// An index that satisfies `p` and has nothing behind it that does is what
/// `last_before` returns.
pub proof fn lemma_last_before_is(p: spec_fn(int) -> bool, j: int, r: int)
    requires
        -1 <= r < j,
        r >= 0 ==> p(r),
        forall|i: int| r < i < j && 0 <= i ==> !#[trigger] p(i),
    ensures
        last_before(p, j) == r,
    decreases j - r,
{
    if r < j - 1 {
        lemma_last_before_is(p, j - 1, r);
    }
}

} // verus!
