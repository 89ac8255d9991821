//! The screen: an outline of items, the set of collapsed sections, the
//! cursor and the scroll offset.

pub mod cursor;
pub mod laws;
pub mod lines;
pub mod render;
pub mod scroll;
pub mod search;
pub mod show_refs;
pub mod view;
pub mod visibility;

use crate::items::Item;
use crate::screen::lines::{
    build_lines, line_index_upto, lines_upto, texts_view, ui_lines, LineEntry, UiLine,
};
use crate::screen::search::{
    first_from, last_before, lemma_first_from_is, lemma_last_before, lemma_last_before_is,
};
use crate::screen::view::{lemma_settle_wf, ScreenView};
use crate::screen::visibility::{
    is_visible, lemma_first_is_visible, visibility, visible_indices, visible_items,
};
use crate::text::{display_text, get_display_text};
use vstd::hash_set::StringHashSet;
use vstd::prelude::*;

verus! {

/// The source of a screen's items. A screen asks it once when it is made
/// and again on every update.
pub trait ScreenData {
    type Error;

    /// `outcome` is something that `items` can hand out. Each source may
    /// say for itself what that is; one that does not says nothing.
    open spec fn provides(&self, outcome: Result<Seq<Item>, Self::Error>) -> bool {
        true
    }

    /// The current items, in outline order.
    fn items(&self) -> (outcome: Result<Vec<Item>, Self::Error>)
        ensures
            self.provides(outcome_view(outcome)),
    ;
}

/// What a source handed out, with the items as a sequence.
pub open spec fn outcome_view<E>(outcome: Result<Vec<Item>, E>) -> Result<Seq<Item>, E> {
    match outcome {
        Ok(items) => Ok(items@),
        Err(error) => Err(error),
    }
}

/// The item at index `item` is the first of `items` whose display text the
/// decoder rejects.
pub open spec fn first_rejected(items: Seq<Item>, item: int) -> bool {
    &&& 0 <= item < items.len()
    &&& display_text(items[item]) is None
    &&& forall|j: int| 0 <= j < item ==> display_text(#[trigger] items[j]) is Some
}

/// Why a screen could not take new items.
#[derive(Debug)]
pub enum ScreenError<E> {
    /// The source of the items failed.
    Provider(E),
    /// The decoder rejected the display text of the item at index `item`.
    Decode { item: usize, cause: ansi_to_tui::Error },
}

/// `texts` holds, for each item, what its display text decodes to.
pub open spec fn decodes_to(
    items: Seq<Item>,
    texts: Seq<Seq<ratatui::text::Line<'static>>>,
) -> bool {
    &&& texts.len() == items.len()
    &&& forall|i: int| 0 <= i < items.len() ==> display_text(#[trigger] items[i]) == Some(texts[i])
}

/// Every item's display text can be decoded.
pub open spec fn all_decode(items: Seq<Item>) -> bool {
    forall|i: int| 0 <= i < items.len() ==> display_text(#[trigger] items[i]) is Some
}

/// Decodes the display text of each item. Fails at the first item whose
/// text the decoder rejects.
pub fn decode_items(items: &Vec<Item>) -> (r: Result<
    Vec<Vec<ratatui::text::Line<'static>>>,
    (usize, ansi_to_tui::Error),
>)
    ensures
        match r {
            Ok(texts) => decodes_to(items@, texts_view(texts@)),
            Err((i, _)) => {
                &&& i < items@.len()
                &&& display_text(items@[i as int]) is None
                &&& forall|j: int| 0 <= j < i ==> display_text(#[trigger] items@[j]) is Some
            },
        },
        r is Ok <==> all_decode(items@),
{
    let mut texts: Vec<Vec<ratatui::text::Line<'static>>> = Vec::new();
    let mut i: usize = 0;
    while i < items.len()
        invariant
            i <= items.len(),
            texts@.len() == i,
            forall|j: int| 0 <= j < i ==> display_text(#[trigger] items@[j]) == Some(texts@[j]@),
        decreases items.len() - i,
    {
        match get_display_text(&items[i]) {
            Ok(text) => {
                texts.push(text);
            },
            Err(cause) => {
                return Err((i, cause));
            },
        }
        i += 1;
    }
    Ok(texts)
}

/// A navigable view of an outline.
pub struct Screen<D: ScreenData> {
    cursor: usize,
    scroll: usize,
    size: (u16, u16),
    data: D,
    items: Vec<Item>,
    /// The decoded lines of each item.
    texts: Vec<Vec<ratatui::text::Line<'static>>>,
    /// For each item, whether it is shown.
    shown: Vec<bool>,
    /// For each item index, and for the number of items, the number of
    /// rendered lines above it.
    offsets: Vec<usize>,
    ui_lines: Vec<UiLine>,
    collapsed: StringHashSet,
}

impl<D: ScreenData> View for Screen<D> {
    type V = ScreenView;

    closed spec fn view(&self) -> ScreenView {
        ScreenView {
            items: self.items@,
            texts: texts_view(self.texts@),
            collapsed: self.collapsed@,
            cursor: self.cursor as int,
            scroll: self.scroll as int,
            size: self.size,
        }
    }
}

impl<D: ScreenData> Screen<D> {
    /// What the screen has derived from its items and its collapse set
    /// agrees with them.
    pub closed spec fn cached(&self) -> bool {
        &&& self.texts@.len() == self.items@.len()
        &&& self.shown@.len() == self.items@.len()
        &&& forall|i: int|
            0 <= i < self.items@.len() ==> self.shown@[i] == is_visible(
                self.items@,
                self.collapsed@,
                i,
            )
        &&& self.offsets@.len() == self.items@.len() + 1
        &&& forall|i: int|
            0 <= i <= self.items@.len() ==> self.offsets@[i] == lines_upto(
                self.items@,
                texts_view(self.texts@),
                self.collapsed@,
                i,
            )
        &&& self.ui_lines@ == ui_lines(self.items@, texts_view(self.texts@), self.collapsed@)
    }

    /// The invariant of a screen: that of its model, and the agreement of
    /// what it has derived.
    pub closed spec fn wf(&self) -> bool {
        self@.wf() && self.cached()
    }

    /// The source of the items, which no operation of the screen changes.
    pub closed spec fn source(&self) -> D {
        self.data
    }

    /// A well-formed screen has a well-formed model.
    pub proof fn lemma_wf(&self)
        requires
            self.wf(),
        ensures
            self@.wf(),
    {
    }

    /// Derives anew, from the items and the collapse set, which items are
    /// shown and what they render to.
    fn update_ui_lines(&mut self)
        requires
            old(self).texts@.len() == old(self).items@.len(),
        ensures
            final(self).cached(),
            final(self)@ == old(self)@,
            final(self).data == old(self).data,
    {
        self.shown = visibility(&self.items, &self.collapsed);
        let (ui_lines, offsets) = build_lines(&self.items, &self.texts, &self.collapsed, &self.shown);
        self.ui_lines = ui_lines;
        self.offsets = offsets;
    }

    fn selectable_at(&self, i: usize) -> (b: bool)
        requires
            self.cached(),
            i < self.items@.len(),
        ensures
            b == self@.selectable(i as int),
    {
        self.shown[i] && !self.items[i].unselectable
    }

    /// The first selectable item at or behind `j`, or the number of items.
    fn first_selectable_from(&self, j: usize) -> (r: usize)
        requires
            self.cached(),
            j <= self.items@.len(),
        ensures
            r == first_from(self@.selectable_pred(), j as int, self@.len()),
    {
        let mut i = j;
        while i < self.items.len()
            invariant
                j <= i <= self.items@.len(),
                self.cached(),
                forall|k: int| j <= k < i ==> !#[trigger] self@.selectable_pred()(k),
            decreases self.items@.len() - i,
        {
            if self.selectable_at(i) {
                proof {
                    lemma_first_from_is(self@.selectable_pred(), j as int, self@.len(), i as int);
                }
                return i;
            }
            i += 1;
        }
        proof {
            lemma_first_from_is(self@.selectable_pred(), j as int, self@.len(), i as int);
        }
        i
    }

    /// The last selectable item before `j`.
    fn last_selectable_before(&self, j: usize) -> (r: Option<usize>)
        requires
            self.cached(),
            j <= self.items@.len(),
        ensures
            match r {
                Some(p) => p == last_before(self@.selectable_pred(), j as int),
                None => last_before(self@.selectable_pred(), j as int) == -1,
            },
    {
        let mut i = j;
        while i > 0
            invariant
                i <= j <= self.items@.len(),
                self.cached(),
                forall|k: int| i <= k < j ==> !#[trigger] self@.selectable_pred()(k),
            decreases i,
        {
            i -= 1;
            if self.selectable_at(i) {
                proof {
                    lemma_last_before_is(self@.selectable_pred(), j as int, i as int);
                }
                return Some(i);
            }
        }
        proof {
            lemma_last_before_is(self@.selectable_pred(), j as int, -1);
        }
        None
    }

    /// The last shown item before `j`, or 0 where there is none.
    fn last_shown_before(&self, j: usize) -> (r: usize)
        requires
            self.cached(),
            j <= self.items@.len(),
            last_before(self@.visible_pred(), j as int) >= 0,
        ensures
            r == last_before(self@.visible_pred(), j as int),
    {
        let mut i = j;
        while i > 0
            invariant
                i <= j <= self.items@.len(),
                self.cached(),
                forall|k: int| i <= k < j ==> !#[trigger] self@.visible_pred()(k),
            decreases i,
        {
            i -= 1;
            if self.shown[i] {
                proof {
                    lemma_last_before_is(self@.visible_pred(), j as int, i as int);
                }
                return i;
            }
        }
        proof {
            lemma_last_before_is(self@.visible_pred(), j as int, -1);
        }
        0
    }

    /// Brings the cursor to rest on a shown, selectable item, and cuts
    /// the scroll offset down to the number of rendered lines.
    fn settle(&mut self)
        requires
            old(self).cached(),
        ensures
            final(self).wf(),
            final(self)@ == old(self)@.settle(),
            final(self).data == old(self).data,
    {
        let n = self.items.len();
        let total = self.ui_lines.len();
        proof {
            lemma_settle_wf(self@);
            if n > 0 {
                lemma_first_is_visible(self.items@, self.collapsed@);
                assert(self@.visible_pred()(0));
                lemma_last_before(self@.visible_pred(), self@.clamped_cursor());
            }
        }
        let mut cursor: usize = 0;
        if n > 0 {
            let c = if self.cursor >= n {
                n - 1
            } else {
                self.cursor
            };
            cursor = c;
            if !self.selectable_at(c) {
                match self.last_selectable_before(c) {
                    Some(previous) => {
                        cursor = previous;
                    },
                    None => {
                        let next = self.first_selectable_from(c + 1);
                        if next < n {
                            cursor = next;
                        } else if !self.shown[c] {
                            cursor = self.last_shown_before(c);
                        }
                    },
                }
            }
        }
        self.cursor = cursor;
        if self.scroll > total {
            self.scroll = total;
        }
    }

    /// A screen on `items`, whose decoded texts are `texts`: nothing
    /// collapsed, the viewport at the top, the cursor on the first
    /// selectable item.
    pub fn with_texts(
        size: (u16, u16),
        data: D,
        items: Vec<Item>,
        texts: Vec<Vec<ratatui::text::Line<'static>>>,
    ) -> (screen: Self)
        requires
            items@.len() == texts@.len(),
        ensures
            screen.wf(),
            screen@ == ScreenView::initial(size, items@, texts_view(texts@)),
            screen.source() == data,
    {
        let mut screen = Screen {
            cursor: 0,
            scroll: 0,
            size,
            data,
            items,
            texts,
            shown: Vec::new(),
            offsets: Vec::new(),
            ui_lines: Vec::new(),
            collapsed: StringHashSet::new(),
        };
        screen.update_ui_lines();
        screen.settle();
        screen
    }

    /// A screen on `items`, or the first item that cannot be decoded.
    pub fn with_items(size: (u16, u16), data: D, items: Vec<Item>) -> (r: Result<
        Self,
        ScreenError<D::Error>,
    >)
        ensures
            r is Ok <==> all_decode(items@),
            match r {
                Ok(screen) => {
                    &&& screen.wf()
                    &&& screen@.items == items@
                    &&& decodes_to(items@, screen@.texts)
                    &&& screen@ == ScreenView::initial(size, items@, screen@.texts)
                    &&& screen.source() == data
                },
                Err(ScreenError::Decode { item, .. }) => {
                    &&& item < items@.len()
                    &&& display_text(items@[item as int]) is None
                    &&& forall|j: int| 0 <= j < item ==> display_text(#[trigger] items@[j]) is Some
                },
                Err(ScreenError::Provider(_)) => false,
            },
    {
        match decode_items(&items) {
            Ok(texts) => Ok(Self::with_texts(size, data, items, texts)),
            Err((item, cause)) => Err(ScreenError::Decode { item, cause }),
        }
    }

    /// A screen on what `data` provides: on the items that it handed out,
    /// if each of them can be decoded. Fails with the error of `data` where
    /// `data` fails, and with the first item that cannot be decoded where
    /// there is one.
    pub fn new(size: (u16, u16), data: D) -> (r: Result<Self, ScreenError<D::Error>>)
        ensures
            match r {
                Ok(screen) => {
                    &&& data.provides(Ok(screen@.items))
                    &&& screen.wf()
                    &&& decodes_to(screen@.items, screen@.texts)
                    &&& screen@ == ScreenView::initial(size, screen@.items, screen@.texts)
                    &&& screen.source() == data
                },
                Err(ScreenError::Provider(error)) => data.provides(Err(error)),
                Err(ScreenError::Decode { item, .. }) => exists|items: Seq<Item>|
                    #[trigger] data.provides(Ok(items)) && first_rejected(items, item as int),
            },
    {
        match data.items() {
            Ok(items) => {
                let ghost provided = items@;
                let r = Self::with_items(size, data, items);
                proof {
                    if let Err(ScreenError::Decode { item, .. }) = r {
                        assert(data.provides(Ok(provided)) && first_rejected(
                            provided,
                            item as int,
                        ));
                    }
                }
                r
            },
            Err(error) => Err(ScreenError::Provider(error)),
        }
    }

    /// Replaces the items, whose decoded texts are `texts`. The collapse
    /// set stays; the cursor comes to rest on a shown, selectable item if
    /// there is one.
    pub fn replace_texts(
        &mut self,
        items: Vec<Item>,
        texts: Vec<Vec<ratatui::text::Line<'static>>>,
    )
        requires
            old(self).wf(),
            items@.len() == texts@.len(),
        ensures
            final(self).wf(),
            final(self)@ == old(self)@.with_items(items@, texts_view(texts@)),
            final(self)@.has_selectable() ==> final(self)@.selectable(final(self)@.cursor),
            final(self).source() == old(self).source(),
    {
        self.items = items;
        self.texts = texts;
        self.update_ui_lines();
        self.settle();
    }

    /// Replaces the items, or leaves the screen as it is where one of them
    /// cannot be decoded.
    pub fn replace_items(&mut self, items: Vec<Item>) -> (r: Result<(), ScreenError<D::Error>>)
        requires
            old(self).wf(),
        ensures
            final(self).wf(),
            final(self).source() == old(self).source(),
            r is Ok <==> all_decode(items@),
            match r {
                Ok(_) => {
                    &&& decodes_to(items@, final(self)@.texts)
                    &&& final(self)@ == old(self)@.with_items(items@, final(self)@.texts)
                },
                Err(ScreenError::Decode { item, .. }) => {
                    &&& final(self)@ == old(self)@
                    &&& item < items@.len()
                    &&& display_text(items@[item as int]) is None
                    &&& forall|j: int| 0 <= j < item ==> display_text(#[trigger] items@[j]) is Some
                },
                Err(ScreenError::Provider(_)) => false,
            },
    {
        match decode_items(&items) {
            Ok(texts) => {
                self.replace_texts(items, texts);
                Ok(())
            },
            Err((item, cause)) => Err(ScreenError::Decode { item, cause }),
        }
    }

    /// Asks the source for the current items and replaces the items with
    /// what it handed out, if each of them can be decoded. Where the source
    /// fails, its error is returned; where an item cannot be decoded, the
    /// first such item is. On either failure the screen stays as it is.
    pub fn update(&mut self) -> (r: Result<(), ScreenError<D::Error>>)
        requires
            old(self).wf(),
        ensures
            final(self).wf(),
            final(self).source() == old(self).source(),
            match r {
                Ok(_) => {
                    &&& old(self).source().provides(Ok(final(self)@.items))
                    &&& decodes_to(final(self)@.items, final(self)@.texts)
                    &&& final(self)@ == old(self)@.with_items(
                        final(self)@.items,
                        final(self)@.texts,
                    )
                    &&& final(self)@.has_selectable() ==> final(self)@.selectable(
                        final(self)@.cursor,
                    )
                },
                Err(ScreenError::Provider(error)) => {
                    &&& old(self).source().provides(Err(error))
                    &&& final(self)@ == old(self)@
                },
                Err(ScreenError::Decode { item, .. }) => {
                    &&& exists|items: Seq<Item>|
                        #[trigger] old(self).source().provides(Ok(items)) && first_rejected(
                            items,
                            item as int,
                        )
                    &&& final(self)@ == old(self)@
                },
            },
    {
        match self.data.items() {
            Ok(items) => {
                let ghost provided = items@;
                let r = self.replace_items(items);
                proof {
                    if let Err(ScreenError::Decode { item, .. }) = r {
                        assert(old(self).source().provides(Ok(provided)) && first_rejected(
                            provided,
                            item as int,
                        ));
                    }
                    if r is Ok {
                        assert(self@.items == provided);
                    }
                }
                r
            },
            Err(error) => Err(ScreenError::Provider(error)),
        }
    }

    /// Collapses the selected item if it is an expanded section, expands
    /// it if it is a collapsed one, and leaves the collapse set alone if it
    /// is no section. Then the cursor comes to rest on a shown item.
    pub fn toggle_section(&mut self)
        requires
            old(self).wf(),
        ensures
            final(self).wf(),
            final(self)@ == old(self)@.toggle_section(),
            final(self).source() == old(self).source(),
    {
        if self.items.len() > 0 {
            let selected = &self.items[self.cursor];
            if selected.section {
                if self.collapsed.contains(selected.display.0.as_str()) {
                    self.collapsed.remove(selected.display.0.as_str());
                } else {
                    self.collapsed.insert(selected.display.0.clone());
                }
            }
        }
        self.update_ui_lines();
        self.settle();
    }

    /// The visibility filter on this screen: the indices of the shown
    /// items, in outline order.
    pub fn collapsed_items_iter(&self) -> (visible: Vec<usize>)
        requires
            self.wf(),
        ensures
            visible@ == visible_items(self@.items, self@.collapsed),
            forall|k: int|
                0 <= k < visible@.len() ==> self@.visible(#[trigger] visible@[k] as int),
            forall|i: int| self@.visible(i) ==> visible@.contains(i as usize),
            forall|j: int, k: int| 0 <= j < k < visible@.len() ==> visible@[j] < visible@[k],
    {
        visible_indices(&self.items, &self.collapsed)
    }

    /// The line index: for each shown item, in outline order, the offset
    /// of its first line, its index and the number of its lines.
    pub fn collapsed_lines_items_iter(&self) -> (index: Vec<LineEntry>)
        requires
            self.wf(),
        ensures
            index@ == self@.line_index(),
    {
        let mut index: Vec<LineEntry> = Vec::new();
        let mut i: usize = 0;
        while i < self.items.len()
            invariant
                i <= self.items@.len(),
                self.wf(),
                index@ == line_index_upto(self@.items, self@.texts, self@.collapsed, i as int),
            decreases self.items@.len() - i,
        {
            if self.shown[i] {
                index.push(
                    LineEntry { line: self.offsets[i], index: i, count: self.texts[i].len() },
                );
            }
            i += 1;
        }
        index
    }

    /// Whether the item's key is in the collapse set.
    pub fn is_collapsed(&self, item: &Item) -> (b: bool)
        ensures
            b == self@.collapsed.contains(item.key()),
    {
        self.collapsed.contains(item.display.0.as_str())
    }

    /// The selected item.
    pub fn get_selected_item(&self) -> (item: &Item)
        requires
            self.wf(),
            self@.len() > 0,
        ensures
            *item == self@.items[self@.cursor],
    {
        &self.items[self.cursor]
    }

    pub fn cursor(&self) -> (cursor: usize)
        ensures
            cursor == self@.cursor,
    {
        self.cursor
    }

    pub fn scroll(&self) -> (scroll: usize)
        ensures
            scroll == self@.scroll,
    {
        self.scroll
    }

    pub fn size(&self) -> (size: (u16, u16))
        ensures
            size == self@.size,
    {
        self.size
    }

    /// Takes the size of a viewport that was resized. The scroll offset
    /// stays until the next movement fits it.
    pub fn set_size(&mut self, size: (u16, u16))
        requires
            old(self).wf(),
        ensures
            final(self).wf(),
            final(self)@ == (ScreenView { size, ..old(self)@ }),
            final(self).source() == old(self).source(),
    {
        self.size = size;
    }

    pub fn items(&self) -> (items: &Vec<Item>)
        ensures
            items@ == self@.items,
    {
        &self.items
    }

    /// The rendered lines of the shown items.
    pub fn ui_lines(&self) -> (lines: &Vec<UiLine>)
        requires
            self.wf(),
        ensures
            lines@ == self@.ui_lines(),
    {
        &self.ui_lines
    }
}

} // verus!
