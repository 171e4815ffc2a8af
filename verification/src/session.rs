//! The main loop's decisions: which command each event carries, and how one
//! step of the loop moves the two cursors.
//!
//! The loop around these functions does the terminal work: it refreshes the
//! cursors from the catalog, draws a frame, blocks on the event source, and
//! hands the event to `step` until `step` says to quit.

use vstd::prelude::*;

use crate::catalog::Catalog;
use crate::event::{Event, Key};
use crate::interface::{
    entry_after_next, entry_after_prev, next_index, prev_index, Copyright, Entries, Lists,
};
use crate::render::{EntryPanelView, FooterView, MenuView};

verus! {

/// What one event asks of the selection model.
#[derive(PartialEq, Eq, Structural, Clone, Copy, Debug)]
pub enum Command {
    NextList,
    PrevList,
    NextEntry,
    PrevEntry,
    Quit,
    Nothing,
}

/// The command an event carries: `q`/`Q` quits, the arrow keys navigate,
/// every other key and the tick ask nothing.
pub open spec fn spec_command_of(e: Event) -> Command {
    match e {
        Event::Input(k) => match k {
            Key::Left => Command::PrevList,
            Key::Right => Command::NextList,
            Key::Up => Command::PrevEntry,
            Key::Down => Command::NextEntry,
            Key::Char(c) => if c == 'q' || c == 'Q' {
                Command::Quit
            } else {
                Command::Nothing
            },
            Key::Other => Command::Nothing,
        },
        Event::Tick => Command::Nothing,
    }
}

/// Read the command an event carries.
pub fn command_of(e: Event) -> (c: Command)
    ensures
        c == spec_command_of(e),
{
    match e {
        Event::Input(k) => match k {
            Key::Left => Command::PrevList,
            Key::Right => Command::NextList,
            Key::Up => Command::PrevEntry,
            Key::Down => Command::NextEntry,
            Key::Char(c) => if c == 'q' || c == 'Q' {
                Command::Quit
            } else {
                Command::Nothing
            },
            Key::Other => Command::Nothing,
        },
        Event::Tick => Command::Nothing,
    }
}

/// The whole interactive state: the list cursor and the entry cursor.
pub struct App {
    pub menu: Lists,
    pub entry: Entries,
}

impl App {
    /// The state a session starts in: empty cursors, to be refreshed from the
    /// catalog before the first frame.
    pub fn new() -> (r: App)
        ensures
            r.menu.selected == 0,
            r.menu.lists@ == Seq::<String>::empty(),
            r.entry.selected == Some(0usize),
            r.entry.entries@ == Seq::<String>::empty(),
    {
        App { menu: Lists::default(), entry: Entries::default() }
    }

    /// Re-derive both cursors' sequences from the catalog, as happens every
    /// frame: the list names, and the entries of the active list. The cursor
    /// positions themselves are kept.
    pub fn refresh(&mut self, catalog: &Catalog)
        requires
            catalog.wf(),
            old(self).menu.selected < catalog.names@.len(),
        ensures
            final(self).menu.selected == old(self).menu.selected,
            final(self).menu.lists@ == catalog.names@,
            final(self).entry.selected == old(self).entry.selected,
            final(self).entry.entries@ == catalog.entries@[old(self).menu.selected as int]@,
    {
        self.menu.lists = catalog.names_vec();
        self.entry.entries = catalog.entries_of(self.menu.selected);
    }

    /// One step of the dispatch: apply the event's command to the cursors and
    /// say whether the loop should quit.
    ///
    /// Switching lists wraps and always puts the entry cursor back on 0;
    /// entry navigation wraps within the active list and is a no-op when that
    /// list has no entries; quitting and ignored events move nothing.
    pub fn step(&mut self, e: Event) -> (quit: bool)
        requires
            (spec_command_of(e) is NextList || spec_command_of(e) is PrevList) ==> old(
                self,
            ).menu.lists@.len() > 0,
        ensures
            quit == (spec_command_of(e) is Quit),
            final(self).menu.lists == old(self).menu.lists,
            final(self).entry.entries == old(self).entry.entries,
            spec_command_of(e) is NextList ==> {
                &&& final(self).menu.selected as int == next_index(
                    old(self).menu.selected as int,
                    old(self).menu.lists@.len() as int,
                )
                &&& final(self).entry.selected == Some(0usize)
            },
            spec_command_of(e) is PrevList ==> {
                &&& final(self).menu.selected as int == prev_index(
                    old(self).menu.selected as int,
                    old(self).menu.lists@.len() as int,
                )
                &&& final(self).entry.selected == Some(0usize)
            },
            spec_command_of(e) is NextEntry ==> {
                &&& final(self).menu.selected == old(self).menu.selected
                &&& old(self).entry.entries@.len() == 0 ==> final(self).entry.selected == old(
                    self,
                ).entry.selected
                &&& old(self).entry.entries@.len() > 0 ==> final(self).entry.selected == Some(
                    (entry_after_next(
                        old(self).entry.selected,
                        old(self).entry.entries@.len() as int,
                    )) as usize,
                )
            },
            spec_command_of(e) is PrevEntry ==> {
                &&& final(self).menu.selected == old(self).menu.selected
                &&& old(self).entry.entries@.len() == 0 ==> final(self).entry.selected == old(
                    self,
                ).entry.selected
                &&& old(self).entry.entries@.len() > 0 ==> final(self).entry.selected == Some(
                    (entry_after_prev(
                        old(self).entry.selected,
                        old(self).entry.entries@.len() as int,
                    )) as usize,
                )
            },
            (spec_command_of(e) is Quit || spec_command_of(e) is Nothing) ==> {
                &&& final(self).menu.selected == old(self).menu.selected
                &&& final(self).entry.selected == old(self).entry.selected
            },
    {
        match command_of(e) {
            Command::Quit => true,
            Command::PrevList => {
                self.menu.previous();
                self.entry.select(0);
                false
            },
            Command::NextList => {
                self.menu.next();
                self.entry.select(0);
                false
            },
            Command::PrevEntry => {
                self.entry.previous();
                false
            },
            Command::NextEntry => {
                self.entry.next();
                false
            },
            Command::Nothing => false,
        }
    }

    /// The state the loop holds between frames: the list cursor is on one of
    /// the catalog's lists and, once the first frame has run, both cursors'
    /// sequences are the catalog's own — the names, and the active list's
    /// entries. The fresh start (no names loaded yet) satisfies it too.
    pub open spec fn synced(self, catalog: Catalog) -> bool {
        &&& self.menu.selected < catalog.names@.len()
        &&& self.menu.lists@.len() > 0 ==> {
            &&& self.menu.lists@ == catalog.names@
            &&& self.entry.entries@ == catalog.entries@[self.menu.selected as int]@
        }
    }

    /// One turn of the main loop: apply the event that ended the previous
    /// frame, then re-derive both cursors from the catalog and produce the
    /// views the next frame draws. Returns the views and whether to quit.
    /// The first turn is primed with a `Tick`, which moves nothing.
    ///
    /// The views show the catalog's names with the active one marked, the
    /// active list's entries under its name with the cursor highlighted, and
    /// the caption. However the event moves the cursors, the loop's
    /// `synced` invariant keeps itself.
    pub fn frame(&mut self, catalog: &Catalog, caption: &Copyright, e: Event) -> (r: (
        MenuView,
        EntryPanelView,
        FooterView,
        bool,
    ))
        requires
            catalog.wf(),
            old(self).synced(*catalog),
            (spec_command_of(e) is NextList || spec_command_of(e) is PrevList) ==> old(
                self,
            ).menu.lists@.len() > 0,
        ensures
            final(self).synced(*catalog),
            final(self).menu.lists@ == catalog.names@,
            r.3 == (spec_command_of(e) is Quit),
            spec_command_of(e) is NextList ==> {
                &&& final(self).menu.selected as int == next_index(
                    old(self).menu.selected as int,
                    catalog.names@.len() as int,
                )
                &&& final(self).entry.selected == Some(0usize)
            },
            spec_command_of(e) is PrevList ==> {
                &&& final(self).menu.selected as int == prev_index(
                    old(self).menu.selected as int,
                    catalog.names@.len() as int,
                )
                &&& final(self).entry.selected == Some(0usize)
            },
            spec_command_of(e) is NextEntry ==> {
                &&& final(self).menu.selected == old(self).menu.selected
                &&& old(self).entry.entries@.len() == 0 ==> final(self).entry.selected == old(
                    self,
                ).entry.selected
                &&& old(self).entry.entries@.len() > 0 ==> final(self).entry.selected == Some(
                    (entry_after_next(
                        old(self).entry.selected,
                        old(self).entry.entries@.len() as int,
                    )) as usize,
                )
            },
            spec_command_of(e) is PrevEntry ==> {
                &&& final(self).menu.selected == old(self).menu.selected
                &&& old(self).entry.entries@.len() == 0 ==> final(self).entry.selected == old(
                    self,
                ).entry.selected
                &&& old(self).entry.entries@.len() > 0 ==> final(self).entry.selected == Some(
                    (entry_after_prev(
                        old(self).entry.selected,
                        old(self).entry.entries@.len() as int,
                    )) as usize,
                )
            },
            (spec_command_of(e) is Quit || spec_command_of(e) is Nothing) ==> {
                &&& final(self).menu.selected == old(self).menu.selected
                &&& final(self).entry.selected == old(self).entry.selected
            },
            r.0.titles@ == catalog.names@,
            r.0.selected == final(self).menu.selected,
            r.1.title == catalog.names@[final(self).menu.selected as int],
            r.1.items@ == catalog.entries@[final(self).menu.selected as int]@,
            r.1.highlighted == final(self).entry.selected,
            r.2.text == caption.message,
    {
        let quit = self.step(e);
        self.refresh(catalog);
        let menu_view = self.menu.render_menu();
        let panel = self.entry.render_entries(self.menu.repr());
        let footer = caption.render_copyright();
        (menu_view, panel, footer, quit)
    }
}

} // verus!
