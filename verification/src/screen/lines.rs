//! The rendered lines of the visible items, and the line index that maps
//! between item indices and line offsets.

use crate::items::Item;
use crate::screen::visibility::{is_collapsed_section, is_visible};
use crate::text::{clone_line, line_width, push_marker, width, with_marker};
use vstd::hash_set::StringHashSet;
use vstd::prelude::*;

verus! {

/// One rendered line.
#[derive(Debug)]
pub struct UiLine {
    /// The index of the item that the line belongs to.
    pub item_index: usize,
    /// A snapshot of that item.
    pub item: Item,
    /// The styled line to paint.
    pub line: ratatui::text::Line<'static>,
    /// Whether the truncation marker was appended to the line.
    pub truncated: bool,
}

/// The place of one visible item among the rendered lines.
#[derive(Clone, Copy, Debug, PartialEq, Eq, Structural)]
pub struct LineEntry {
    /// The offset of the item's first line.
    pub line: usize,
    /// The index of the item.
    pub index: usize,
    /// The number of lines that the item renders to.
    pub count: usize,
}

/// The decoded texts of the items, as sequences.
pub open spec fn texts_view(texts: Seq<Vec<ratatui::text::Line<'static>>>) -> Seq<
    Seq<ratatui::text::Line<'static>>,
> {
    Seq::new(texts.len(), |i: int| texts[i]@)
}

/// Item `i` is a collapsed section that hides at least one item.
pub open spec fn truncates(items: Seq<Item>, collapsed: Set<Seq<char>>, i: int) -> bool {
    &&& is_collapsed_section(items[i], collapsed)
    &&& i + 1 < items.len()
    &&& items[i + 1].depth > items[i].depth
}

/// Line `k` of item `i` gets the truncation marker: it is the last line of
/// a collapsed section that hides something, and it is not blank.
pub open spec fn marked(
    items: Seq<Item>,
    texts: Seq<Seq<ratatui::text::Line<'static>>>,
    collapsed: Set<Seq<char>>,
    i: int,
    k: int,
) -> bool {
    &&& truncates(items, collapsed, i)
    &&& k == texts[i].len() - 1
    &&& line_width(texts[i][k]) > 0
}

/// The rendered form of line `k` of item `i`.
pub open spec fn ui_line(
    items: Seq<Item>,
    texts: Seq<Seq<ratatui::text::Line<'static>>>,
    collapsed: Set<Seq<char>>,
    i: int,
    k: int,
) -> UiLine {
    UiLine {
        item_index: i as usize,
        item: items[i],
        line: if marked(items, texts, collapsed, i, k) {
            with_marker(texts[i][k])
        } else {
            texts[i][k]
        },
        truncated: marked(items, texts, collapsed, i, k),
    }
}

/// The rendered lines of item `i`.
pub open spec fn item_lines(
    items: Seq<Item>,
    texts: Seq<Seq<ratatui::text::Line<'static>>>,
    collapsed: Set<Seq<char>>,
    i: int,
) -> Seq<UiLine> {
    Seq::new(texts[i].len(), |k: int| ui_line(items, texts, collapsed, i, k))
}

/// The rendered lines of the visible items below index `n`.
pub open spec fn ui_lines_upto(
    items: Seq<Item>,
    texts: Seq<Seq<ratatui::text::Line<'static>>>,
    collapsed: Set<Seq<char>>,
    n: int,
) -> Seq<UiLine>
    decreases n,
{
    if n <= 0 {
        Seq::empty()
    } else {
        let rest = ui_lines_upto(items, texts, collapsed, n - 1);
        if is_visible(items, collapsed, n - 1) {
            rest + item_lines(items, texts, collapsed, n - 1)
        } else {
            rest
        }
    }
}

/// All rendered lines: those of the visible items, in order.
pub open spec fn ui_lines(
    items: Seq<Item>,
    texts: Seq<Seq<ratatui::text::Line<'static>>>,
    collapsed: Set<Seq<char>>,
) -> Seq<UiLine> {
    ui_lines_upto(items, texts, collapsed, items.len() as int)
}

/// The number of rendered lines above item `n`: the line offset of item
/// `n`, where it is visible.
pub open spec fn lines_upto(
    items: Seq<Item>,
    texts: Seq<Seq<ratatui::text::Line<'static>>>,
    collapsed: Set<Seq<char>>,
    n: int,
) -> nat {
    ui_lines_upto(items, texts, collapsed, n).len()
}

/// The line index entry of item `i`.
pub open spec fn line_entry(
    items: Seq<Item>,
    texts: Seq<Seq<ratatui::text::Line<'static>>>,
    collapsed: Set<Seq<char>>,
    i: int,
) -> LineEntry {
    LineEntry {
        line: lines_upto(items, texts, collapsed, i) as usize,
        index: i as usize,
        count: texts[i].len() as usize,
    }
}

/// The entries of the visible items below index `n`.
pub open spec fn line_index_upto(
    items: Seq<Item>,
    texts: Seq<Seq<ratatui::text::Line<'static>>>,
    collapsed: Set<Seq<char>>,
    n: int,
) -> Seq<LineEntry>
    decreases n,
{
    if n <= 0 {
        Seq::empty()
    } else {
        let rest = line_index_upto(items, texts, collapsed, n - 1);
        if is_visible(items, collapsed, n - 1) {
            rest.push(line_entry(items, texts, collapsed, n - 1))
        } else {
            rest
        }
    }
}

/// The line index: one entry for each visible item, in order.
pub open spec fn line_index(
    items: Seq<Item>,
    texts: Seq<Seq<ratatui::text::Line<'static>>>,
    collapsed: Set<Seq<char>>,
) -> Seq<LineEntry> {
    line_index_upto(items, texts, collapsed, items.len() as int)
}

/// The line offsets never decrease along the items.
pub proof fn lemma_lines_upto_monotonic(
    items: Seq<Item>,
    texts: Seq<Seq<ratatui::text::Line<'static>>>,
    collapsed: Set<Seq<char>>,
    i: int,
    j: int,
)
    requires
        i <= j,
    ensures
        lines_upto(items, texts, collapsed, i) <= lines_upto(items, texts, collapsed, j),
    decreases j - i,
{
    if i < j {
        lemma_lines_upto_monotonic(items, texts, collapsed, i, j - 1);
    }
}

/// Every rendered line below item `n` belongs to a visible item below `n`,
/// and is the line of that item that its place says.
pub proof fn lemma_ui_lines_upto(
    items: Seq<Item>,
    texts: Seq<Seq<ratatui::text::Line<'static>>>,
    collapsed: Set<Seq<char>>,
    n: int,
)
    requires
        0 <= n <= items.len() <= usize::MAX,
    ensures
        forall|l: int|
            0 <= l < lines_upto(items, texts, collapsed, n) ==> {
                let u = #[trigger] ui_lines_upto(items, texts, collapsed, n)[l];
                &&& u.item_index < n
                &&& is_visible(items, collapsed, u.item_index as int)
                &&& lines_upto(items, texts, collapsed, u.item_index as int) <= l
                    < lines_upto(items, texts, collapsed, u.item_index as int)
                    + texts[u.item_index as int].len()
                &&& u == ui_line(
                    items,
                    texts,
                    collapsed,
                    u.item_index as int,
                    l - lines_upto(items, texts, collapsed, u.item_index as int),
                )
            },
    decreases n,
{
    if n > 0 {
        lemma_ui_lines_upto(items, texts, collapsed, n - 1);
    }
}

/// The line index holds the entry of each visible item below `n` once, in
/// ascending order, and nothing else.
pub proof fn lemma_line_index_upto(
    items: Seq<Item>,
    texts: Seq<Seq<ratatui::text::Line<'static>>>,
    collapsed: Set<Seq<char>>,
    n: int,
)
    requires
        0 <= n <= items.len() <= usize::MAX,
    ensures
        forall|k: int|
            0 <= k < line_index_upto(items, texts, collapsed, n).len() ==> {
                let e = #[trigger] line_index_upto(items, texts, collapsed, n)[k];
                &&& e.index < n
                &&& is_visible(items, collapsed, e.index as int)
                &&& e == line_entry(items, texts, collapsed, e.index as int)
            },
        forall|j: int, k: int|
            0 <= j < k < line_index_upto(items, texts, collapsed, n).len() ==> line_index_upto(
                items,
                texts,
                collapsed,
                n,
            )[j].index < line_index_upto(items, texts, collapsed, n)[k].index,
        forall|i: int|
            0 <= i < n && is_visible(items, collapsed, i) ==> exists|k: int|
                0 <= k < line_index_upto(items, texts, collapsed, n).len() && (
                #[trigger] line_index_upto(items, texts, collapsed, n)[k]).index == i,
    decreases n,
{
    if n > 0 {
        lemma_line_index_upto(items, texts, collapsed, n - 1);
        let rest = line_index_upto(items, texts, collapsed, n - 1);
        let v = line_index_upto(items, texts, collapsed, n);
        assert forall|i: int| 0 <= i < n && is_visible(items, collapsed, i) implies exists|k: int|
            0 <= k < v.len() && (#[trigger] v[k]).index == i by {
            if i < n - 1 {
                let k = choose|k: int| 0 <= k < rest.len() && (#[trigger] rest[k]).index == i;
                assert(v[k].index == i);
            } else {
                assert(v[v.len() - 1].index == i);
            }
        }
    }
}

/// Renders the visible items. Returns the rendered lines and, for each
/// item index up to the number of items, the number of rendered lines
/// above it.
///
/// Each visible item contributes its decoded lines, in order. The last
/// line of a collapsed section that hides something gets the truncation
/// marker, unless the line is blank.
pub fn build_lines(
    items: &Vec<Item>,
    texts: &Vec<Vec<ratatui::text::Line<'static>>>,
    collapsed: &StringHashSet,
    shown: &Vec<bool>,
) -> (r: (Vec<UiLine>, Vec<usize>))
    requires
        items.len() == texts.len(),
        items.len() == shown.len(),
        forall|i: int| 0 <= i < items@.len() ==> shown@[i] == is_visible(items@, collapsed@, i),
    ensures
        r.0@ == ui_lines(items@, texts_view(texts@), collapsed@),
        r.1@.len() == items@.len() + 1,
        forall|i: int|
            0 <= i <= items@.len() ==> r.1@[i] == lines_upto(
                items@,
                texts_view(texts@),
                collapsed@,
                i,
            ),
{
    let ghost tv = texts_view(texts@);
    let mut ui: Vec<UiLine> = Vec::new();
    let mut offsets: Vec<usize> = Vec::new();
    let mut i: usize = 0;
    while i < items.len()
        invariant
            i <= items.len(),
            items.len() == texts.len(),
            items.len() == shown.len(),
            forall|j: int| 0 <= j < items@.len() ==> shown@[j] == is_visible(items@, collapsed@, j),
            tv == texts_view(texts@),
            ui@ == ui_lines_upto(items@, tv, collapsed@, i as int),
            offsets@.len() == i,
            forall|j: int| 0 <= j < i ==> offsets@[j] == lines_upto(items@, tv, collapsed@, j),
        decreases items.len() - i,
    {
        offsets.push(ui.len());
        if shown[i] {
            let item = &items[i];
            let text = &texts[i];
            let truncating = item.section && collapsed.contains(item.display.0.as_str()) && i + 1
                < items.len() && items[i + 1].depth > item.depth;
            let ghost above = ui@;
            let mut k: usize = 0;
            while k < text.len()
                invariant
                    k <= text.len(),
                    i < items.len(),
                    items.len() == texts.len(),
                    tv == texts_view(texts@),
                    text == &texts[i as int],
                    item == &items[i as int],
                    truncating == truncates(items@, collapsed@, i as int),
                    ui@ == above + item_lines(items@, tv, collapsed@, i as int).subrange(
                        0,
                        k as int,
                    ),
                decreases text.len() - k,
            {
                let mut line = clone_line(&text[k]);
                let mut truncated = false;
                if truncating && k + 1 == text.len() && width(&line) > 0 {
                    push_marker(&mut line);
                    truncated = true;
                }
                ui.push(UiLine { item_index: i, item: item.clone(), line, truncated });
                assert(ui@[ui@.len() - 1] == item_lines(items@, tv, collapsed@, i as int)[k as int]);
                assert(ui@ =~= above + item_lines(items@, tv, collapsed@, i as int).subrange(
                    0,
                    k + 1,
                ));
                k += 1;
            }
            assert(ui@ =~= above + item_lines(items@, tv, collapsed@, i as int));
        }
        i += 1;
    }
    offsets.push(ui.len());
    (ui, offsets)
}

} // verus!
