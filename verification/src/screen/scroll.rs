//! The scroll manager: keeping the selection inside the viewport, and
//! panning the viewport by half pages.

use crate::screen::lines::lemma_lines_upto_monotonic;
use crate::screen::search::lemma_first_from_is;
use crate::screen::{Screen, ScreenData};
use vstd::prelude::*;

verus! {

impl<D: ScreenData> Screen<D> {
    /// Whether item `i` is the selected item or stands where an ancestor
    /// of its depth would stand on a path of consecutive items down to the
    /// selected item.
    pub fn selected_or_direct_ancestor(&self, i: usize) -> (b: bool)
        requires
            self.wf(),
            i < self@.len(),
        ensures
            b == self@.selected_or_direct_ancestor(i as int),
    {
        let selected = self.items[self.cursor].depth;
        let depth = self.items[i].depth;
        let levels_above = if selected >= depth {
            selected - depth
        } else {
            0
        };
        levels_above <= self.cursor && i == self.cursor - levels_above
    }

    /// Fit start: moves the viewport up, if it must, to the first line of
    /// the selected item's context.
    pub fn scroll_fit_start(&mut self)
        requires
            old(self).wf(),
        ensures
            final(self).wf(),
            final(self)@ == old(self)@.scroll_fit_start(),
            final(self).source() == old(self).source(),
    {
        let n = self.items.len();
        if n == 0 {
            return ;
        }
        let mut i: usize = 0;
        while i < n && !(self.shown[i] && self.selected_or_direct_ancestor(i))
            invariant
                i <= n,
                n == self@.len(),
                self.wf(),
                forall|k: int| 0 <= k < i ==> !#[trigger] self@.anchor_pred()(k),
            decreases n - i,
        {
            i += 1;
        }
        proof {
            lemma_first_from_is(self@.anchor_pred(), 0, self@.len(), i as int);
        }
        let start_line = self.offsets[i];
        if start_line < self.scroll {
            self.scroll = start_line;
        }
    }

    /// Fit end: moves the viewport down, if it must, so that the last
    /// line of the selected item's rendered subtree is its bottom line.
    pub fn scroll_fit_end(&mut self)
        requires
            old(self).wf(),
        ensures
            final(self).wf(),
            final(self)@ == old(self)@.scroll_fit_end(),
            final(self).source() == old(self).source(),
    {
        let n = self.items.len();
        if n == 0 {
            return ;
        }
        let depth = self.items[self.cursor].depth;
        let mut i: usize = self.cursor + 1;
        while i < n && !(self.shown[i] && self.items[i].depth <= depth)
            invariant
                self.cursor < i <= n,
                n == self@.len(),
                self.wf(),
                depth == self@.items[self@.cursor].depth,
                forall|k: int| self.cursor < k < i ==> !#[trigger] self@.subtree_end_pred()(k),
            decreases n - i,
        {
            i += 1;
        }
        proof {
            lemma_first_from_is(
                self@.subtree_end_pred(),
                self@.cursor + 1,
                self@.len(),
                i as int,
            );
            lemma_lines_upto_monotonic(
                self@.items,
                self@.texts,
                self@.collapsed,
                i as int,
                self@.len(),
            );
        }
        let end_line = self.offsets[i];
        let height = self.size.1 as usize;
        if end_line > height && end_line - height > self.scroll {
            self.scroll = end_line - height;
        }
    }

    /// Moves the viewport up by half its height, and no further than the
    /// top.
    pub fn scroll_half_page_up(&mut self)
        requires
            old(self).wf(),
        ensures
            final(self).wf(),
            final(self)@ == old(self)@.scroll_half_page_up(),
            final(self).source() == old(self).source(),
    {
        let half_screen = (self.size.1 / 2) as usize;
        self.scroll = if self.scroll >= half_screen {
            self.scroll - half_screen
        } else {
            0
        };
    }

    /// Moves the viewport down by half its height, and no further than
    /// the end of the rendered lines.
    pub fn scroll_half_page_down(&mut self)
        requires
            old(self).wf(),
        ensures
            final(self).wf(),
            final(self)@ == old(self)@.scroll_half_page_down(),
            final(self).source() == old(self).source(),
    {
        let half_screen = (self.size.1 / 2) as usize;
        let total = self.ui_lines.len();
        self.scroll = if half_screen <= total - self.scroll {
            self.scroll + half_screen
        } else {
            total
        };
    }
}

} // verus!
