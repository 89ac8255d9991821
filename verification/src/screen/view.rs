//! The mathematical model of a screen, and what each operation makes of it.

use crate::items::Item;
use crate::screen::lines::{line_index, lines_upto, ui_lines, LineEntry, UiLine};
use crate::screen::search::{first_from, last_before, lemma_first_from, lemma_last_before};
use crate::screen::visibility::{is_visible, lemma_first_is_visible};
use vstd::prelude::*;

verus! {

/// How a row is highlighted.
#[derive(Clone, Copy, Debug, PartialEq, Eq, Structural)]
pub enum Highlight {
    /// Not at all.
    Plain,
    /// As a row of the selected item.
    Selected,
    /// As a row of the selected item's subtree.
    Dim,
}

/// One row of the viewport.
#[derive(Clone, Copy, Debug, PartialEq, Eq, Structural)]
pub struct Row {
    /// The index of the rendered line that the row shows.
    pub line: usize,
    pub highlight: Highlight,
}

/// Tells of an index whether the item there is shown.
pub open spec fn shown_in(items: Seq<Item>, collapsed: Set<Seq<char>>) -> spec_fn(int) -> bool {
    |i: int| is_visible(items, collapsed, i)
}

/// Tells of an index whether the item there is shown and the cursor may
/// rest on it.
pub open spec fn selectable_in(items: Seq<Item>, collapsed: Set<Seq<char>>) -> spec_fn(
    int,
) -> bool {
    |i: int| is_visible(items, collapsed, i) && !items[i].unselectable
}

/// Some item is shown that the cursor may rest on.
pub open spec fn some_selectable(items: Seq<Item>, collapsed: Set<Seq<char>>) -> bool {
    exists|i: int| #[trigger] is_visible(items, collapsed, i) && !items[i].unselectable
}

/// Item `i` stands as many places before `cursor` as it is levels above
/// the item at `cursor`; for an item that is no level above, that is the
/// place of `cursor` itself.
pub open spec fn stands_for_ancestor(items: Seq<Item>, cursor: int, i: int) -> bool {
    let selected = items[cursor].depth;
    let levels_above = if selected >= items[i].depth {
        selected - items[i].depth
    } else {
        0
    };
    i + levels_above == cursor
}

/// Tells of an index whether the item there is shown and is the item at
/// `cursor` or stands for one of its ancestors.
pub open spec fn anchor_in(items: Seq<Item>, collapsed: Set<Seq<char>>, cursor: int) -> spec_fn(
    int,
) -> bool {
    |i: int| is_visible(items, collapsed, i) && stands_for_ancestor(items, cursor, i)
}

/// Tells of an index whether the item there is shown and no deeper than
/// the item at `cursor`.
pub open spec fn subtree_end_in(
    items: Seq<Item>,
    collapsed: Set<Seq<char>>,
    cursor: int,
) -> spec_fn(int) -> bool {
    |i: int| is_visible(items, collapsed, i) && items[i].depth <= items[cursor].depth
}

/// A screen as a value: the outline, the decoded text of each item, the
/// keys of the collapsed sections, and the presentation state.
pub struct ScreenView {
    pub items: Seq<Item>,
    /// The decoded lines of each item, by item index.
    pub texts: Seq<Seq<ratatui::text::Line<'static>>>,
    pub collapsed: Set<Seq<char>>,
    /// The index of the selected item.
    pub cursor: int,
    /// The offset of the viewport, in rendered lines.
    pub scroll: int,
    /// The width and the height of the viewport.
    pub size: (u16, u16),
}

impl ScreenView {
    pub open spec fn len(self) -> int {
        self.items.len() as int
    }

    pub open spec fn height(self) -> int {
        self.size.1 as int
    }

    /// Item `i` is shown.
    pub open spec fn visible(self, i: int) -> bool {
        is_visible(self.items, self.collapsed, i)
    }

    /// Item `i` is shown and the cursor may rest on it.
    pub open spec fn selectable(self, i: int) -> bool {
        self.visible(i) && !self.items[i].unselectable
    }

    pub open spec fn visible_pred(self) -> spec_fn(int) -> bool {
        shown_in(self.items, self.collapsed)
    }

    pub open spec fn selectable_pred(self) -> spec_fn(int) -> bool {
        selectable_in(self.items, self.collapsed)
    }

    /// Some item is shown that the cursor may rest on.
    pub open spec fn has_selectable(self) -> bool {
        some_selectable(self.items, self.collapsed)
    }

    /// The line offset of item `i`: the number of rendered lines above it.
    pub open spec fn line_of(self, i: int) -> int {
        lines_upto(self.items, self.texts, self.collapsed, i) as int
    }

    /// The number of rendered lines.
    pub open spec fn total_lines(self) -> int {
        self.line_of(self.len())
    }

    /// The rendered lines.
    pub open spec fn ui_lines(self) -> Seq<UiLine> {
        ui_lines(self.items, self.texts, self.collapsed)
    }

    /// The line index.
    pub open spec fn line_index(self) -> Seq<LineEntry> {
        line_index(self.items, self.texts, self.collapsed)
    }

    /// The invariant of a screen: each item has its text; the cursor is on
    /// an item that is shown, and on a selectable one if there is any; the
    /// viewport starts no lower than the end of the rendered lines.
    pub open spec fn wf(self) -> bool {
        &&& self.len() <= usize::MAX
        &&& self.texts.len() == self.len()
        &&& self.total_lines() <= usize::MAX
        &&& 0 <= self.cursor
        &&& self.len() == 0 ==> self.cursor == 0
        &&& self.len() > 0 ==> self.cursor < self.len() && self.visible(self.cursor)
        &&& self.has_selectable() ==> self.selectable(self.cursor)
        &&& 0 <= self.scroll <= self.total_lines()
    }

    // ---- the cursor ----

    /// Where `select_next` puts the cursor: on the next selectable item
    /// that is shown, or where it is if there is none.
    pub open spec fn find_next(self) -> int {
        let next = first_from(self.selectable_pred(), self.cursor + 1, self.len());
        if next < self.len() {
            next
        } else {
            self.cursor
        }
    }

    /// Where `select_previous` puts the cursor: on the last selectable item
    /// before it that is shown, or where it is if there is none.
    pub open spec fn find_previous(self) -> int {
        let previous = last_before(self.selectable_pred(), self.cursor);
        if previous >= 0 {
            previous
        } else {
            self.cursor
        }
    }

    /// The cursor forced into the range of the items.
    pub open spec fn clamped_cursor(self) -> int {
        if self.len() == 0 {
            0
        } else if self.cursor >= self.len() {
            self.len() - 1
        } else {
            self.cursor
        }
    }

    pub open spec fn clamp_cursor(self) -> ScreenView {
        ScreenView { cursor: self.clamped_cursor(), ..self }
    }

    /// Where the cursor comes to rest after the items or the collapse set
    /// changed: where it was, clamped, if that item is shown and
    /// selectable; else on the last such item before it; else on the first
    /// such item behind it; else, with nothing selectable, on the clamped
    /// index if it is shown, or on the last shown item before it.
    pub open spec fn settled_cursor(self) -> int {
        let c = self.clamped_cursor();
        let previous = last_before(self.selectable_pred(), c);
        let next = first_from(self.selectable_pred(), c + 1, self.len());
        if self.len() == 0 {
            0
        } else if self.selectable(c) {
            c
        } else if previous >= 0 {
            previous
        } else if next < self.len() {
            next
        } else if self.visible(c) {
            c
        } else {
            last_before(self.visible_pred(), c)
        }
    }

    /// The cursor settled, and the scroll offset cut down to the number of
    /// rendered lines.
    pub open spec fn settle(self) -> ScreenView {
        let scroll = if self.scroll > self.total_lines() {
            self.total_lines()
        } else {
            self.scroll
        };
        ScreenView { cursor: self.settled_cursor(), scroll, ..self }
    }

    // ---- the scroll offset ----

    /// Item `i` stands where the selected item's ancestor of `i`'s depth
    /// would stand if the path down to the selected item were a run of
    /// consecutive items: as many places before the cursor as `i` is levels
    /// above it. For an item as deep as the selected one or deeper, that is
    /// the cursor's own place.
    pub open spec fn selected_or_direct_ancestor(self, i: int) -> bool {
        stands_for_ancestor(self.items, self.cursor, i)
    }

    pub open spec fn anchor_pred(self) -> spec_fn(int) -> bool {
        anchor_in(self.items, self.collapsed, self.cursor)
    }

    /// The line at which the context of the selected item starts: the
    /// offset of the first shown item that is the selected item or stands
    /// for one of its ancestors.
    pub open spec fn start_line(self) -> int {
        self.line_of(first_from(self.anchor_pred(), 0, self.len()))
    }

    /// Fit start: the viewport moved up, if it must, so that it starts no
    /// lower than the context of the selected item.
    pub open spec fn scroll_fit_start(self) -> ScreenView {
        if self.len() > 0 && self.start_line() < self.scroll {
            ScreenView { scroll: self.start_line(), ..self }
        } else {
            self
        }
    }

    pub open spec fn subtree_end_pred(self) -> spec_fn(int) -> bool {
        subtree_end_in(self.items, self.collapsed, self.cursor)
    }

    /// The line just below the rendered subtree of the selected item: the
    /// offset of the first shown item behind the cursor that is not deeper
    /// than the selected item, or the number of rendered lines if there is
    /// none.
    pub open spec fn end_line(self) -> int {
        self.line_of(first_from(self.subtree_end_pred(), self.cursor + 1, self.len()))
    }

    /// Fit end: the viewport moved down, if it must, so that the last line
    /// of the selected item's rendered subtree is its bottom line.
    pub open spec fn scroll_fit_end(self) -> ScreenView {
        if self.len() > 0 && self.end_line() - self.height() > self.scroll {
            ScreenView { scroll: self.end_line() - self.height(), ..self }
        } else {
            self
        }
    }

    pub open spec fn select_next(self) -> ScreenView {
        ScreenView { cursor: self.find_next(), ..self }.scroll_fit_end().scroll_fit_start()
    }

    pub open spec fn select_previous(self) -> ScreenView {
        ScreenView { cursor: self.find_previous(), ..self }.scroll_fit_start()
    }

    pub open spec fn scroll_half_page_up(self) -> ScreenView {
        let half = self.height() / 2;
        ScreenView { scroll: if self.scroll >= half { self.scroll - half } else { 0 }, ..self }
    }

    pub open spec fn scroll_half_page_down(self) -> ScreenView {
        let half = self.height() / 2;
        ScreenView {
            scroll: if self.scroll + half <= self.total_lines() {
                self.scroll + half
            } else {
                self.total_lines()
            },
            ..self
        }
    }

    // ---- collapsing and refreshing ----

    /// The collapse set after the selected item was toggled: its key put
    /// in or taken out if it is a section, the set as it was if not.
    pub open spec fn toggled(self) -> Set<Seq<char>> {
        let selected = self.items[self.cursor];
        if self.len() == 0 || !selected.section {
            self.collapsed
        } else if self.collapsed.contains(selected.key()) {
            self.collapsed.remove(selected.key())
        } else {
            self.collapsed.insert(selected.key())
        }
    }

    pub open spec fn toggle_section(self) -> ScreenView {
        ScreenView { collapsed: self.toggled(), ..self }.settle()
    }

    /// The screen with its items replaced.
    pub open spec fn with_items(
        self,
        items: Seq<Item>,
        texts: Seq<Seq<ratatui::text::Line<'static>>>,
    ) -> ScreenView {
        ScreenView { items, texts, ..self }.settle()
    }

    /// A fresh screen: nothing collapsed, the viewport at the top, the
    /// cursor on the first selectable item.
    pub open spec fn initial(
        size: (u16, u16),
        items: Seq<Item>,
        texts: Seq<Seq<ratatui::text::Line<'static>>>,
    ) -> ScreenView {
        ScreenView { items, texts, collapsed: Set::empty(), cursor: 0, scroll: 0, size }.settle()
    }

    // ---- painting ----

    /// The depth that the highlight pass holds after the first `n` rows
    /// of the viewport: that of the selected item from its first row on,
    /// until a row of an item that is not deeper.
    pub open spec fn highlight_depth(self, n: int) -> Option<usize>
        decreases n,
    {
        if n <= 0 {
            None
        } else {
            let before = self.highlight_depth(n - 1);
            let line = self.ui_lines()[self.scroll + n - 1];
            if line.item_index == self.cursor {
                Some(line.item.depth)
            } else if before matches Some(depth) && depth >= line.item.depth {
                None
            } else {
                before
            }
        }
    }

    /// How row `row` of the viewport is highlighted.
    pub open spec fn highlight(self, row: int) -> Highlight {
        if self.highlight_depth(row + 1) is None {
            Highlight::Plain
        } else if self.ui_lines()[self.scroll + row].item_index == self.cursor {
            Highlight::Selected
        } else {
            Highlight::Dim
        }
    }

    /// The number of rows that a viewport of the given height shows.
    pub open spec fn row_count(self, height: int) -> int {
        if self.total_lines() - self.scroll < height {
            self.total_lines() - self.scroll
        } else {
            height
        }
    }

    /// The rows that a viewport of the given height shows: the rendered
    /// lines from the scroll offset on, each with its highlight.
    pub open spec fn rows(self, height: int) -> Seq<Row> {
        Seq::new(
            self.row_count(height) as nat,
            |row: int| Row { line: (self.scroll + row) as usize, highlight: self.highlight(row) },
        )
    }
}

/// Settling establishes the invariant, whatever the cursor and the scroll
/// offset were.
pub proof fn lemma_settle_wf(m: ScreenView)
    requires
        m.len() <= usize::MAX,
        m.texts.len() == m.len(),
        m.total_lines() <= usize::MAX,
        0 <= m.cursor,
        0 <= m.scroll,
    ensures
        m.settle().wf(),
{
    let s = m.settle();
    let c = m.clamped_cursor();
    assert(s.total_lines() == m.total_lines());
    lemma_last_before(m.selectable_pred(), c);
    lemma_last_before(m.visible_pred(), c);
    if m.len() > 0 {
        lemma_first_from(m.selectable_pred(), c + 1, m.len());
        lemma_first_is_visible(m.items, m.collapsed);
        assert(m.visible_pred()(0));
        assert(s.visible(s.cursor));
    }
    if m.has_selectable() {
        let i = choose|i: int| #[trigger] is_visible(m.items, m.collapsed, i) && !m.items[i].unselectable;
        assert(m.selectable_pred()(i));
    }
}

} // verus!
