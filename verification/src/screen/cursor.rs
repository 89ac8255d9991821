//! The cursor navigator: moving the selection over the shown, selectable
//! items.

use crate::screen::search::{lemma_first_from, lemma_last_before};
use crate::screen::view::ScreenView;
use crate::screen::{Screen, ScreenData};
use vstd::prelude::*;

verus! {

/// Moving the cursor to the next or the previous selectable item keeps the
/// invariant.
pub proof fn lemma_move_wf(m: ScreenView)
    requires
        m.wf(),
    ensures
        (ScreenView { cursor: m.find_next(), ..m }).wf(),
        (ScreenView { cursor: m.find_previous(), ..m }).wf(),
{
    if m.len() > 0 {
        lemma_first_from(m.selectable_pred(), m.cursor + 1, m.len());
    }
    lemma_last_before(m.selectable_pred(), m.cursor);
}

impl<D: ScreenData> Screen<D> {
    /// The index of the next shown, selectable item behind the cursor, or
    /// the cursor where there is none.
    pub fn find_next(&self) -> (next: usize)
        requires
            self.wf(),
        ensures
            next == self@.find_next(),
    {
        if self.items.len() == 0 {
            return self.cursor;
        }
        let next = self.first_selectable_from(self.cursor + 1);
        if next < self.items.len() {
            next
        } else {
            self.cursor
        }
    }

    /// Moves the cursor to the next shown, selectable item, if there is
    /// one, and fits the viewport to the selection.
    pub fn select_next(&mut self)
        requires
            old(self).wf(),
        ensures
            final(self).wf(),
            final(self)@ == old(self)@.select_next(),
            final(self).source() == old(self).source(),
    {
        proof {
            lemma_move_wf(self@);
        }
        self.cursor = self.find_next();
        self.scroll_fit_end();
        self.scroll_fit_start();
    }

    /// Moves the cursor to the last shown, selectable item before it, if
    /// there is one, and fits the viewport to the selection.
    pub fn select_previous(&mut self)
        requires
            old(self).wf(),
        ensures
            final(self).wf(),
            final(self)@ == old(self)@.select_previous(),
            final(self).source() == old(self).source(),
    {
        proof {
            lemma_move_wf(self@);
        }
        match self.last_selectable_before(self.cursor) {
            Some(previous) => {
                self.cursor = previous;
            },
            None => {},
        }
        self.scroll_fit_start();
    }

    /// Forces the cursor into the range of the items. On a screen that
    /// holds its invariant the cursor is there already.
    pub fn clamp_cursor(&mut self)
        requires
            old(self).wf(),
        ensures
            final(self).wf(),
            final(self)@ == old(self)@.clamp_cursor(),
            final(self)@ == old(self)@,
            final(self).source() == old(self).source(),
    {
        let last = if self.items.len() == 0 {
            0
        } else {
            self.items.len() - 1
        };
        if self.cursor > last {
            self.cursor = last;
        }
    }
}

} // verus!
