//! The catalog: an ordered mapping from list name to that list's entries.
//!
//! It is loaded once at startup and never changes during a session; the
//! selection model re-derives its sequences from it every frame.

use vstd::prelude::*;

use crate::interface::clone_strings;

verus! {

/// Why a catalog cannot be built.
#[derive(PartialEq, Eq, Structural, Clone, Copy, Debug)]
pub enum CatalogError {
    /// There is no list at all; wraparound navigation needs at least one.
    NoLists,
    /// The name sequence and the entry rows differ in length.
    Mismatched,
}

/// Named lists of text entries, in order: `names[i]` owns the row `entries[i]`.
pub struct Catalog {
    pub names: Vec<String>,
    pub entries: Vec<Vec<String>>,
}

impl Catalog {
    /// Each name has its entry row, and there is at least one list.
    pub open spec fn wf(self) -> bool {
        &&& self.names@.len() == self.entries@.len()
        &&& self.names@.len() > 0
    }

    /// Build a catalog. Mismatched rows and an empty catalog are rejected,
    /// in that order of precedence.
    pub fn new(names: Vec<String>, entries: Vec<Vec<String>>) -> (r: Result<
        Catalog,
        CatalogError,
    >)
        ensures
            match r {
                Ok(c) => {
                    &&& c.names == names
                    &&& c.entries == entries
                    &&& c.wf()
                },
                Err(e) => {
                    &&& !(names@.len() == entries@.len() && names@.len() > 0)
                    &&& e == (if names@.len() != entries@.len() {
                        CatalogError::Mismatched
                    } else {
                        CatalogError::NoLists
                    })
                },
            },
    {
        if names.len() != entries.len() {
            Err(CatalogError::Mismatched)
        } else if names.len() == 0 {
            Err(CatalogError::NoLists)
        } else {
            Ok(Catalog { names, entries })
        }
    }

    /// How many lists the catalog holds.
    pub fn list_count(&self) -> (n: usize)
        ensures
            n == self.names@.len(),
    {
        self.names.len()
    }

    /// A copy of the ordered list names.
    pub fn names_vec(&self) -> (r: Vec<String>)
        ensures
            r@ == self.names@,
    {
        clone_strings(&self.names)
    }

    /// A copy of the entries of list `i`.
    pub fn entries_of(&self, i: usize) -> (r: Vec<String>)
        requires
            i < self.entries@.len(),
        ensures
            r@ == self.entries@[i as int]@,
    {
        clone_strings(&self.entries[i])
    }
}

} // verus!
