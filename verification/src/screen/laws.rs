//! What holds of the operations of a screen when they are combined.

use crate::items::Item;
use crate::screen::lines::{lemma_lines_upto_monotonic, lemma_ui_lines_upto};
use crate::screen::search::{
    first_from, lemma_first_from, lemma_first_from_is, lemma_last_before_is,
};
use crate::screen::view::{lemma_settle_wf, ScreenView};
use vstd::prelude::*;

verus! {

/// From a selectable item that has a selectable item behind it, selecting
/// the next item and then the previous one brings the cursor back to where
/// it was.
pub proof fn lemma_next_then_previous(m: ScreenView)
    requires
        m.wf(),
        m.selectable(m.cursor),
        m.find_next() != m.cursor,
    ensures
        m.select_next().select_previous().cursor == m.cursor,
{
    let next = first_from(m.selectable_pred(), m.cursor + 1, m.len());
    lemma_first_from(m.selectable_pred(), m.cursor + 1, m.len());
    assert(m.selectable_pred()(m.cursor));
    lemma_last_before_is(m.selectable_pred(), next, m.cursor);
}

/// On the last selectable item, selecting the next item leaves the cursor
/// where it is, and selecting it once more changes nothing at all.
pub proof fn lemma_select_next_at_last(m: ScreenView)
    requires
        m.wf(),
        forall|i: int| m.cursor < i < m.len() ==> !#[trigger] m.selectable(i),
    ensures
        m.select_next().cursor == m.cursor,
        m.select_next().select_next() == m.select_next(),
{
    if m.len() > 0 {
        assert forall|i: int| m.cursor + 1 <= i < m.len() implies !#[trigger] m.selectable_pred()(
            i,
        ) by {
            assert(!m.selectable(i));
        }
        lemma_first_from_is(m.selectable_pred(), m.cursor + 1, m.len(), m.len());
    }
    let once = m.select_next();
    assert(once.cursor == m.cursor);
    assert(once.find_next() == once.cursor);
}

/// Collapsing the selected section and expanding it again gives back the
/// rendered lines as they were, provided that the cursor still rests on
/// that section, or on one of the same key, after the first toggle.
pub proof fn lemma_toggle_round_trip(m: ScreenView)
    requires
        m.wf(),
        m.len() > 0,
        m.items[m.cursor].section,
        !m.collapsed.contains(m.items[m.cursor].key()),
        m.toggle_section().items[m.toggle_section().cursor].section,
        m.toggle_section().items[m.toggle_section().cursor].key() == m.items[m.cursor].key(),
    ensures
        m.toggle_section().toggle_section().collapsed == m.collapsed,
        m.toggle_section().toggle_section().ui_lines() == m.ui_lines(),
{
    let key = m.items[m.cursor].key();
    let once = m.toggle_section();
    let twice = once.toggle_section();
    assert(once.collapsed == m.collapsed.insert(key));
    assert(twice.collapsed =~= m.collapsed);
}

/// Fitting the viewport never moves it below the end of the rendered
/// lines.
pub proof fn lemma_fit_keeps_scroll_in_range(m: ScreenView)
    requires
        m.wf(),
    ensures
        0 <= m.scroll_fit_end().scroll <= m.total_lines(),
        0 <= m.scroll_fit_start().scroll <= m.total_lines(),
        m.scroll_fit_start().scroll <= m.scroll <= m.scroll_fit_end().scroll,
{
    if m.len() > 0 {
        lemma_first_from(m.subtree_end_pred(), m.cursor + 1, m.len());
        lemma_lines_upto_monotonic(
            m.items,
            m.texts,
            m.collapsed,
            first_from(m.subtree_end_pred(), m.cursor + 1, m.len()),
            m.len(),
        );
    }
}

/// After the items were replaced, by whatever items, the screen holds its
/// invariant: the cursor is on a shown item, and on a selectable one if
/// any selectable item is shown.
pub proof fn lemma_refresh_rests_on_selectable(
    m: ScreenView,
    items: Seq<Item>,
    texts: Seq<Seq<ratatui::text::Line<'static>>>,
)
    requires
        m.wf(),
        items.len() <= usize::MAX,
        texts.len() == items.len(),
        (ScreenView { items, texts, ..m }).total_lines() <= usize::MAX,
    ensures
        m.with_items(items, texts).wf(),
        m.with_items(items, texts).has_selectable() ==> m.with_items(items, texts).selectable(
            m.with_items(items, texts).cursor,
        ),
{
    lemma_settle_wf(ScreenView { items, texts, ..m });
}

/// After a section was toggled the screen holds its invariant: the cursor
/// is on a shown item, and the viewport starts within the rendered lines.
pub proof fn lemma_toggle_keeps_invariant(m: ScreenView)
    requires
        m.wf(),
        (ScreenView { collapsed: m.toggled(), ..m }).total_lines() <= usize::MAX,
    ensures
        m.toggle_section().wf(),
{
    lemma_settle_wf(ScreenView { collapsed: m.toggled(), ..m });
}

/// No rendered line belongs to an item that a collapsed section hides:
/// each belongs to a shown item, and is the line of that item that its
/// place among the lines says.
pub proof fn lemma_rendered_lines_are_of_shown_items(m: ScreenView, l: int)
    requires
        m.wf(),
        0 <= l < m.total_lines(),
    ensures
        m.visible(m.ui_lines()[l].item_index as int),
        m.line_of(m.ui_lines()[l].item_index as int) <= l < m.line_of(
            m.ui_lines()[l].item_index as int,
        ) + m.texts[m.ui_lines()[l].item_index as int].len(),
        m.ui_lines()[l].item == m.items[m.ui_lines()[l].item_index as int],
{
    lemma_ui_lines_upto(m.items, m.texts, m.collapsed, m.len());
}

} // verus!
