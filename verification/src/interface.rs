//! The selection model: which list is active, and which entry within it.

use vstd::prelude::*;

verus! {

/// The index after `i` in a cycle of `n` items: moving past the last wraps to 0.
pub open spec fn next_index(i: int, n: int) -> int {
    if i >= n - 1 {
        0
    } else {
        i + 1
    }
}

/// The index before `i` in a cycle of `n` items: moving before the first wraps to the end.
pub open spec fn prev_index(i: int, n: int) -> int {
    if i == 0 {
        n - 1
    } else {
        i - 1
    }
}

/// A copy of a vector of strings, element for element.
pub fn clone_strings(v: &Vec<String>) -> (r: Vec<String>)
    ensures
        r@ == v@,
{
    let r = v.clone();
    proof {
        assert forall|i: int| 0 <= i < v@.len() implies v@[i] == r@[i] by {
            assert(cloned::<String>(v@[i], r@[i]));
        }
        assert(r@ =~= v@);
    }
    r
}

/// The cursor over the list names: the ordered names and the index of the active one.
pub struct Lists {
    pub selected: usize,
    pub lists: Vec<String>,
}

impl Lists {
    /// Advance the active list by one, wrapping from the last to the first.
    pub fn next(&mut self)
        requires
            old(self).lists.len() > 0,
        ensures
            final(self).lists == old(self).lists,
            final(self).selected as int == next_index(
                old(self).selected as int,
                old(self).lists.len() as int,
            ),
    {
        if self.selected >= self.lists.len() - 1 {
            self.selected = 0;
        } else {
            self.selected += 1;
        }
    }

    /// Move the active list back by one, wrapping from the first to the last.
    pub fn previous(&mut self)
        requires
            old(self).lists.len() > 0,
        ensures
            final(self).lists == old(self).lists,
            final(self).selected as int == prev_index(
                old(self).selected as int,
                old(self).lists.len() as int,
            ),
    {
        if self.selected == 0 {
            self.selected = self.lists.len() - 1;
        } else {
            self.selected -= 1;
        }
    }

    /// The name of the active list, or a fixed marker when the index is out of range.
    pub fn repr(&self) -> (r: String)
        ensures
            self.selected < self.lists.len() ==> r == self.lists@[self.selected as int],
            self.selected >= self.lists.len() ==> r@ == "Error"@,
    {
        if self.selected < self.lists.len() {
            self.lists[self.selected].clone()
        } else {
            "Error".to_owned()
        }
    }
}

impl Default for Lists {
    /// An empty cursor: no names, index 0.
    fn default() -> (r: Self)
        ensures
            r.selected == 0,
            r.lists@ == Seq::<String>::empty(),
    {
        Lists { selected: 0, lists: Vec::new() }
    }
}

impl<'a> From<Vec<&'a str>> for Lists {
    /// A cursor over the given names, starting at the first.
    fn from(values: Vec<&'a str>) -> (r: Self)
        ensures
            r.selected == 0,
            r.lists@.len() == values@.len(),
            forall|i: int| 0 <= i < values@.len() ==> r.lists@[i]@ == values@[i]@,
    {
        let mut lists: Vec<String> = Vec::new();
        let mut k: usize = 0;
        while k < values.len()
            invariant
                k <= values.len(),
                lists@.len() == k,
                forall|i: int| 0 <= i < k ==> lists@[i]@ == values@[i]@,
            decreases values.len() - k,
        {
            lists.push(values[k].to_owned());
            k += 1;
        }
        Lists { selected: 0, lists }
    }
}

impl<'a> vstd::std_specs::convert::FromSpecImpl<Vec<&'a str>> for Lists {
    open spec fn obeys_from_spec() -> bool {
        false
    }

    open spec fn from_spec(t: Vec<&'a str>) -> Lists {
        arbitrary()
    }
}

impl From<Vec<String>> for Lists {
    /// A cursor over the given names, starting at the first.
    fn from(values: Vec<String>) -> (r: Self) {
        Lists { selected: 0, lists: values }
    }
}

impl vstd::std_specs::convert::FromSpecImpl<Vec<String>> for Lists {
    open spec fn obeys_from_spec() -> bool {
        true
    }

    open spec fn from_spec(t: Vec<String>) -> Lists {
        Lists { selected: 0, lists: t }
    }
}

impl Clone for Lists {
    /// A copy with the same names and the same active index.
    fn clone(&self) -> (r: Lists)
        ensures
            r.selected == self.selected,
            r.lists@ == self.lists@,
    {
        Lists { selected: self.selected, lists: clone_strings(&self.lists) }
    }
}

/// The entry cursor after a forward step among `n` entries: an unset cursor
/// lands on the first entry, a set one advances with wraparound.
pub open spec fn entry_after_next(sel: Option<usize>, n: int) -> int {
    match sel {
        Some(s) => next_index(s as int, n),
        None => 0,
    }
}

/// The entry cursor after a backward step among `n` entries: an unset cursor
/// lands on the first entry, a set one steps back with wraparound.
pub open spec fn entry_after_prev(sel: Option<usize>, n: int) -> int {
    match sel {
        Some(s) => prev_index(s as int, n),
        None => 0,
    }
}

/// The cursor over the active list's entries: the entries themselves and an
/// optional highlighted index (unset only transiently).
pub struct Entries {
    pub selected: Option<usize>,
    pub entries: Vec<String>,
}

impl Entries {
    /// Put the cursor on entry `i`.
    pub fn select(&mut self, i: usize)
        ensures
            final(self).entries == old(self).entries,
            final(self).selected == Some(i),
    {
        self.selected = Some(i);
    }

    /// Advance the cursor by one entry, wrapping from the last to the first.
    /// With no entries this is a no-op.
    pub fn next(&mut self)
        ensures
            final(self).entries == old(self).entries,
            old(self).entries.len() == 0 ==> final(self).selected == old(self).selected,
            old(self).entries.len() > 0 ==> final(self).selected == Some(
                (entry_after_next(old(self).selected, old(self).entries.len() as int)) as usize,
            ),
    {
        let len = self.entries.len();
        if len == 0 {
            return ;
        }
        self.selected = Some(
            match self.selected {
                Some(s) => if s >= len - 1 {
                    0
                } else {
                    s + 1
                },
                None => 0,
            },
        );
    }

    /// Move the cursor back by one entry, wrapping from the first to the last.
    /// With no entries this is a no-op.
    pub fn previous(&mut self)
        ensures
            final(self).entries == old(self).entries,
            old(self).entries.len() == 0 ==> final(self).selected == old(self).selected,
            old(self).entries.len() > 0 ==> final(self).selected == Some(
                (entry_after_prev(old(self).selected, old(self).entries.len() as int)) as usize,
            ),
    {
        let len = self.entries.len();
        if len == 0 {
            return ;
        }
        self.selected = Some(
            match self.selected {
                Some(s) => if s == 0 {
                    len - 1
                } else {
                    s - 1
                },
                None => 0,
            },
        );
    }
}

impl Default for Entries {
    /// An empty cursor: no entries, the cursor on index 0.
    fn default() -> (r: Self)
        ensures
            r.selected == Some(0usize),
            r.entries@ == Seq::<String>::empty(),
    {
        Entries { selected: Some(0), entries: Vec::new() }
    }
}

impl<'a> From<Vec<&'a str>> for Entries {
    /// A cursor over the given entries, starting at the first.
    fn from(values: Vec<&'a str>) -> (r: Self)
        ensures
            r.selected == Some(0usize),
            r.entries@.len() == values@.len(),
            forall|i: int| 0 <= i < values@.len() ==> r.entries@[i]@ == values@[i]@,
    {
        let mut entries: Vec<String> = Vec::new();
        let mut k: usize = 0;
        while k < values.len()
            invariant
                k <= values.len(),
                entries@.len() == k,
                forall|i: int| 0 <= i < k ==> entries@[i]@ == values@[i]@,
            decreases values.len() - k,
        {
            entries.push(values[k].to_owned());
            k += 1;
        }
        Entries { selected: Some(0), entries }
    }
}

impl<'a> vstd::std_specs::convert::FromSpecImpl<Vec<&'a str>> for Entries {
    open spec fn obeys_from_spec() -> bool {
        false
    }

    open spec fn from_spec(t: Vec<&'a str>) -> Entries {
        arbitrary()
    }
}

impl From<Vec<String>> for Entries {
    /// A cursor over the given entries, starting at the first.
    fn from(values: Vec<String>) -> (r: Self) {
        Entries { selected: Some(0), entries: values }
    }
}

impl vstd::std_specs::convert::FromSpecImpl<Vec<String>> for Entries {
    open spec fn obeys_from_spec() -> bool {
        true
    }

    open spec fn from_spec(t: Vec<String>) -> Entries {
        Entries { selected: Some(0usize), entries: t }
    }
}

/// The footer's constant caption.
pub struct Copyright {
    pub message: String,
}

impl<'a> From<&'a str> for Copyright {
    /// A footer carrying the given caption.
    fn from(m: &'a str) -> (r: Self)
        ensures
            r.message@ == m@,
    {
        Copyright { message: m.to_owned() }
    }
}

impl<'a> vstd::std_specs::convert::FromSpecImpl<&'a str> for Copyright {
    open spec fn obeys_from_spec() -> bool {
        false
    }

    open spec fn from_spec(t: &'a str) -> Copyright {
        arbitrary()
    }
}

} // verus!
