//! The renderer's plan: which rendered lines the viewport shows, and how
//! each row is highlighted.

use crate::screen::view::{Highlight, Row};
use crate::screen::{Screen, ScreenData};
use vstd::prelude::*;

verus! {

impl<D: ScreenData> Screen<D> {
    /// The rows of a viewport of the given height: the rendered lines from
    /// the scroll offset on, as many as fit.
    ///
    /// One pass highlights the rows of the selected item, and dims the
    /// rows behind them as long as they belong to deeper items: the
    /// selected item's subtree.
    pub fn render(&self, height: u16) -> (rows: Vec<Row>)
        requires
            self.wf(),
        ensures
            rows@ == self@.rows(height as int),
    {
        let mut rows: Vec<Row> = Vec::new();
        let mut highlight_depth: Option<usize> = None;
        let available = self.ui_lines.len() - self.scroll;
        let count = if available < height as usize {
            available
        } else {
            height as usize
        };
        let mut row: usize = 0;
        while row < count
            invariant
                row <= count,
                count == self@.row_count(height as int),
                self.wf(),
                highlight_depth == self@.highlight_depth(row as int),
                rows@.len() == row,
                forall|r: int|
                    0 <= r < row ==> rows@[r] == (Row {
                        line: (self@.scroll + r) as usize,
                        highlight: self@.highlight(r),
                    }),
            decreases count - row,
        {
            let line = &self.ui_lines[self.scroll + row];
            if line.item_index == self.cursor {
                highlight_depth = Some(line.item.depth);
            } else {
                match highlight_depth {
                    Some(depth) => {
                        if depth >= line.item.depth {
                            highlight_depth = None;
                        }
                    },
                    None => {},
                }
            }
            let highlight = if highlight_depth.is_none() {
                Highlight::Plain
            } else if line.item_index == self.cursor {
                Highlight::Selected
            } else {
                Highlight::Dim
            };
            rows.push(Row { line: self.scroll + row, highlight });
            row += 1;
        }
        assert(rows@ =~= self@.rows(height as int));
        rows
    }
}

} // verus!
