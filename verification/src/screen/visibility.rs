//! The visibility filter: which items of an outline are shown when some of
//! its sections are collapsed.

use crate::items::Item;
use vstd::hash_set::StringHashSet;
use vstd::prelude::*;

verus! {

/// The item is a section whose key is in the collapse set.
pub open spec fn is_collapsed_section(item: Item, collapsed: Set<Seq<char>>) -> bool {
    item.section && collapsed.contains(item.key())
}

/// Item `i` lies in the subtree of item `s`: it comes after `s`, and every
/// item from just behind `s` up to `i` is deeper than `s`.
pub open spec fn in_subtree(items: Seq<Item>, s: int, i: int) -> bool {
    &&& 0 <= s < i < items.len()
    &&& forall|k: int| s < k <= i ==> (#[trigger] items[k]).depth > items[s].depth
}

/// Item `i` lies in the subtree of some collapsed section.
pub open spec fn elided(items: Seq<Item>, collapsed: Set<Seq<char>>, i: int) -> bool {
    exists|s: int| #[trigger] in_subtree(items, s, i) && is_collapsed_section(items[s], collapsed)
}

/// Item `i` exists and no collapsed section hides it.
pub open spec fn is_visible(items: Seq<Item>, collapsed: Set<Seq<char>>, i: int) -> bool {
    0 <= i < items.len() && !elided(items, collapsed, i)
}

/// The indices below `n` of the visible items, in ascending order.
pub open spec fn visible_upto(items: Seq<Item>, collapsed: Set<Seq<char>>, n: int) -> Seq<usize>
    decreases n,
{
    if n <= 0 {
        Seq::empty()
    } else {
        let rest = visible_upto(items, collapsed, n - 1);
        if is_visible(items, collapsed, n - 1) {
            rest.push((n - 1) as usize)
        } else {
            rest
        }
    }
}

/// The indices of all visible items, in ascending order.
pub open spec fn visible_items(items: Seq<Item>, collapsed: Set<Seq<char>>) -> Seq<usize> {
    visible_upto(items, collapsed, items.len() as int)
}

/// The state of a single pass over the first `n` items: the collapsed
/// section whose subtree the pass is skipping, if it is skipping one.
pub open spec fn collapser(items: Seq<Item>, collapsed: Set<Seq<char>>, n: int) -> Option<int>
    decreases n,
{
    if n <= 0 {
        None
    } else {
        let prev = collapser(items, collapsed, n - 1);
        let item = items[n - 1];
        if prev matches Some(s) && items[s].depth < item.depth {
            prev
        } else if is_collapsed_section(item, collapsed) {
            Some(n - 1)
        } else {
            None
        }
    }
}

/// The single pass skips item `i`.
pub open spec fn skipped(items: Seq<Item>, collapsed: Set<Seq<char>>, i: int) -> bool {
    collapser(items, collapsed, i) matches Some(s) && items[s].depth < items[i].depth
}

proof fn lemma_collapser(items: Seq<Item>, collapsed: Set<Seq<char>>, n: int)
    requires
        0 <= n <= items.len(),
    ensures
        collapser(items, collapsed, n) matches Some(s) ==> {
            &&& 0 <= s < n
            &&& is_collapsed_section(items[s], collapsed)
            &&& forall|k: int| s < k < n ==> (#[trigger] items[k]).depth > items[s].depth
        },
    decreases n,
{
    if n > 0 {
        lemma_collapser(items, collapsed, n - 1);
    }
}

proof fn lemma_subtree_is_skipped(items: Seq<Item>, collapsed: Set<Seq<char>>, s: int, n: int)
    requires
        0 <= s < n <= items.len(),
        is_collapsed_section(items[s], collapsed),
        forall|k: int| s < k < n ==> (#[trigger] items[k]).depth > items[s].depth,
    ensures
        collapser(items, collapsed, n) matches Some(t) && 0 <= t < n && items[t].depth
            <= items[s].depth,
    decreases n,
{
    if n == s + 1 {
        lemma_collapser(items, collapsed, s);
    } else {
        lemma_subtree_is_skipped(items, collapsed, s, n - 1);
    }
}

/// The single pass skips exactly the items that a collapsed section hides.
pub proof fn lemma_skipped_iff_elided(items: Seq<Item>, collapsed: Set<Seq<char>>, i: int)
    requires
        0 <= i < items.len(),
    ensures
        skipped(items, collapsed, i) <==> elided(items, collapsed, i),
{
    lemma_collapser(items, collapsed, i);
    if skipped(items, collapsed, i) {
        let s = collapser(items, collapsed, i).unwrap();
        assert(in_subtree(items, s, i));
    }
    if elided(items, collapsed, i) {
        let s = choose|s: int| #[trigger]
            in_subtree(items, s, i) && is_collapsed_section(items[s], collapsed);
        lemma_subtree_is_skipped(items, collapsed, s, i);
    }
}

/// The first item of an outline is always shown.
pub proof fn lemma_first_is_visible(items: Seq<Item>, collapsed: Set<Seq<char>>)
    requires
        items.len() > 0,
    ensures
        is_visible(items, collapsed, 0),
{
}

/// The list of visible items holds each visible item once, in ascending
/// order, and nothing else.
pub proof fn lemma_visible_upto(items: Seq<Item>, collapsed: Set<Seq<char>>, n: int)
    requires
        0 <= n <= items.len(),
        items.len() <= usize::MAX,
    ensures
        forall|k: int|
            0 <= k < visible_upto(items, collapsed, n).len() ==> {
                &&& (#[trigger] visible_upto(items, collapsed, n)[k]) < n
                &&& is_visible(items, collapsed, visible_upto(items, collapsed, n)[k] as int)
            },
        forall|j: int, k: int|
            0 <= j < k < visible_upto(items, collapsed, n).len() ==> visible_upto(
                items,
                collapsed,
                n,
            )[j] < visible_upto(items, collapsed, n)[k],
        forall|i: int|
            0 <= i < n && is_visible(items, collapsed, i) ==> visible_upto(
                items,
                collapsed,
                n,
            ).contains(i as usize),
    decreases n,
{
    if n > 0 {
        lemma_visible_upto(items, collapsed, n - 1);
        let rest = visible_upto(items, collapsed, n - 1);
        let v = visible_upto(items, collapsed, n);
        assert forall|i: int| 0 <= i < n && is_visible(items, collapsed, i) implies v.contains(
            i as usize,
        ) by {
            if i < n - 1 {
                let k = choose|k: int| 0 <= k < rest.len() && rest[k] == i as usize;
                assert(v[k] == i as usize);
            } else {
                assert(v[v.len() - 1] == i as usize);
            }
        }
    }
}

/// Tells for each item whether it is shown. One pass over the items keeps
/// the depth of the collapsed section it is in and skips what is deeper.
pub fn visibility(items: &Vec<Item>, collapsed: &StringHashSet) -> (shown: Vec<bool>)
    ensures
        shown@.len() == items@.len(),
        forall|i: int| 0 <= i < items@.len() ==> shown@[i] == is_visible(items@, collapsed@, i),
{
    let mut shown: Vec<bool> = Vec::new();
    let mut collapse_depth: Option<usize> = None;
    let mut i: usize = 0;
    while i < items.len()
        invariant
            i <= items.len(),
            shown@.len() == i,
            forall|j: int| 0 <= j < i ==> shown@[j] == is_visible(items@, collapsed@, j),
            match collapser(items@, collapsed@, i as int) {
                Some(s) => 0 <= s < i && collapse_depth == Some(items@[s].depth),
                None => collapse_depth is None,
            },
        decreases items.len() - i,
    {
        let item = &items[i];
        proof {
            lemma_skipped_iff_elided(items@, collapsed@, i as int);
        }
        let hidden = match collapse_depth {
            Some(depth) => depth < item.depth,
            None => false,
        };
        if !hidden {
            collapse_depth =
            if item.section && collapsed.contains(item.display.0.as_str()) {
                Some(item.depth)
            } else {
                None
            };
        }
        shown.push(!hidden);
        i += 1;
    }
    shown
}

/// The visibility filter: the indices of the items that are shown, in
/// the order of the outline.
///
/// No emitted item lies in the subtree of a collapsed section, and every
/// other item is emitted.
pub fn visible_indices(items: &Vec<Item>, collapsed: &StringHashSet) -> (out: Vec<usize>)
    ensures
        out@ == visible_items(items@, collapsed@),
        forall|k: int|
            0 <= k < out@.len() ==> out@[k] < items@.len() && !elided(
                items@,
                collapsed@,
                #[trigger] out@[k] as int,
            ),
        forall|i: int|
            0 <= i < items@.len() && !elided(items@, collapsed@, i) ==> out@.contains(i as usize),
        forall|j: int, k: int| 0 <= j < k < out@.len() ==> out@[j] < out@[k],
{
    let shown = visibility(items, collapsed);
    let mut out: Vec<usize> = Vec::new();
    let mut i: usize = 0;
    while i < items.len()
        invariant
            i <= items.len(),
            shown@.len() == items@.len(),
            forall|j: int| 0 <= j < items@.len() ==> shown@[j] == is_visible(items@, collapsed@, j),
            out@ == visible_upto(items@, collapsed@, i as int),
        decreases items.len() - i,
    {
        if shown[i] {
            out.push(i);
        }
        i += 1;
    }
    proof {
        lemma_visible_upto(items@, collapsed@, items@.len() as int);
        assert forall|i: int|
            0 <= i < items@.len() && !elided(items@, collapsed@, i) implies out@.contains(
            i as usize,
        ) by {
            assert(is_visible(items@, collapsed@, i));
        }
    }
    out
}

} // verus!
