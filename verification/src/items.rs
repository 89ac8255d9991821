//! The nodes of the outline that a screen shows.

use std::collections::hash_map::DefaultHasher;
use std::hash::{BuildHasher, BuildHasherDefault};
use vstd::prelude::*;

verus! {

/// What an item stands for in the repository. The engine stores it and hands
/// it back; it never looks inside.
#[derive(Debug)]
pub enum TargetData {
    Branch(String),
    Commit(String),
    File(String),
    Stash { commit: String, id: usize },
}

impl Clone for TargetData {
    fn clone(&self) -> (r: Self)
        ensures
            r == *self,
    {
        match self {
            TargetData::Branch(name) => TargetData::Branch(name.clone()),
            TargetData::Commit(rev) => TargetData::Commit(rev.clone()),
            TargetData::File(path) => TargetData::File(path.clone()),
            TargetData::Stash { commit, id } => TargetData::Stash { commit: commit.clone(), id: *id },
        }
    }
}

/// One node of the outline. The items of a screen form a pre-order
/// flattened tree: an item's children follow it directly and are one level
/// deeper.
#[derive(Debug)]
pub struct Item {
    /// Identity derived from the item's content, stable across refreshes.
    pub id: u64,
    /// The text to show, which may hold embedded style escapes and several
    /// lines, and the style to patch the decoded text with.
    pub display: (String, ratatui::style::Style),
    /// Nesting level; root items have depth 0.
    pub depth: usize,
    /// Whether the item is a header that can be collapsed.
    pub section: bool,
    /// Whether the cursor must pass over the item.
    pub unselectable: bool,
    pub target_data: Option<TargetData>,
}

impl Clone for Item {
    fn clone(&self) -> (r: Self)
        ensures
            r == *self,
    {
        Item {
            id: self.id,
            display: (self.display.0.clone(), self.display.1),
            depth: self.depth,
            section: self.section,
            unselectable: self.unselectable,
            target_data: match &self.target_data {
                Some(target) => Some(target.clone()),
                None => None,
            },
        }
    }
}

impl Item {
    /// The key under which a section is remembered as collapsed: its
    /// display text.
    pub open spec fn key(self) -> Seq<char> {
        self.display.0@
    }
}

/// What an item stands for, with its texts as characters.
pub enum TargetView {
    Branch(Seq<char>),
    Commit(Seq<char>),
    File(Seq<char>),
    Stash { commit: Seq<char>, id: usize },
}

/// An item, with its texts as characters.
pub struct ItemView {
    pub id: u64,
    pub display: Seq<char>,
    pub style: ratatui::style::Style,
    pub depth: usize,
    pub section: bool,
    pub unselectable: bool,
    pub target_data: Option<TargetView>,
}

impl View for TargetData {
    type V = TargetView;

    open spec fn view(&self) -> TargetView {
        match *self {
            TargetData::Branch(name) => TargetView::Branch(name@),
            TargetData::Commit(rev) => TargetView::Commit(rev@),
            TargetData::File(path) => TargetView::File(path@),
            TargetData::Stash { commit, id } => TargetView::Stash { commit: commit@, id },
        }
    }
}

impl View for Item {
    type V = ItemView;

    open spec fn view(&self) -> ItemView {
        ItemView {
            id: self.id,
            display: self.display.0@,
            style: self.display.1,
            depth: self.depth,
            section: self.section,
            unselectable: self.unselectable,
            target_data: match self.target_data {
                Some(target) => Some(target@),
                None => None,
            },
        }
    }
}

/// The items of a list, each by its view.
pub open spec fn views(items: Seq<Item>) -> Seq<ItemView> {
    Seq::new(items.len(), |i: int| items[i]@)
}

/// The identity that `hash` derives from a text.
pub uninterp spec fn hashed(text: Seq<char>) -> u64;

/// Calls `std::hash::BuildHasher::hash_one` on a default-built
/// `DefaultHasher`. That hasher has fixed keys, so the result is a function
/// of the text; which function, the standard library leaves open.
#[verifier::external_body]
pub(crate) fn hash(text: &str) -> (id: u64)
    ensures
        id == hashed(text@),
{
    BuildHasherDefault::<DefaultHasher>::default().hash_one(text)
}

/// An empty line that the cursor passes over.
pub fn blank_line(style: ratatui::style::Style) -> (item: Item)
    ensures
        item@ == blank_line_view(style),
{
    Item {
        id: 0,
        display: (String::new(), style),
        depth: 0,
        section: false,
        unselectable: true,
        target_data: None,
    }
}

pub open spec fn blank_line_view(style: ratatui::style::Style) -> ItemView {
    ItemView {
        id: 0,
        display: Seq::empty(),
        style,
        depth: 0,
        section: false,
        unselectable: true,
        target_data: None,
    }
}

} // verus!
