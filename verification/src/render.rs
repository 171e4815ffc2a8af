//! Render binding: the pure mapping from the selection model and the catalog
//! to the content of the three display regions.
//!
//! The views here are plain descriptors — names, items, indices, captions.
//! Turning them into styled terminal widgets, and drawing them, is the
//! terminal layer's work and has no effect on what is shown where.

use vstd::prelude::*;

use crate::interface::{clone_strings, Copyright, Entries, Lists};

verus! {

/// The tab strip: every list name in order, the active one distinguished by
/// its index.
pub struct MenuView {
    pub titles: Vec<String>,
    pub selected: usize,
}

/// The entry panel: its title, its items in order, the highlighted index and
/// the marker glyph put before the highlighted item.
pub struct EntryPanelView {
    pub title: String,
    pub items: Vec<String>,
    pub highlighted: Option<usize>,
    pub highlight_symbol: String,
}

/// The footer: its constant caption.
pub struct FooterView {
    pub text: String,
}

impl Lists {
    /// The tab strip this cursor draws: all the names, the active index kept.
    pub fn render_menu(&self) -> (v: MenuView)
        ensures
            v.titles@ == self.lists@,
            v.selected == self.selected,
    {
        MenuView { titles: clone_strings(&self.lists), selected: self.selected }
    }
}

impl Entries {
    /// The panel this cursor draws: the given title, every entry in order,
    /// the cursor's index highlighted and marked with `"> "`.
    pub fn render_entries(&self, title: String) -> (v: EntryPanelView)
        ensures
            v.title == title,
            v.items@ == self.entries@,
            v.highlighted == self.selected,
            v.highlight_symbol@ == "> "@,
    {
        EntryPanelView {
            title,
            items: clone_strings(&self.entries),
            highlighted: self.selected,
            highlight_symbol: "> ".to_owned(),
        }
    }
}

impl Copyright {
    /// The footer this caption draws.
    pub fn render_copyright(&self) -> (v: FooterView)
        ensures
            v.text == self.message,
    {
        FooterView { text: self.message.clone() }
    }
}

} // verus!
