//! A terminal list viewer's core: a catalog of named lists of text entries,
//! a selection model with wraparound navigation over the lists and over the
//! entries of the active list, the event dispatch of the interactive loop,
//! the tick-driven event source's bookkeeping, and the pure construction of
//! the three display regions (tabs, entry panel, footer).
//!
//! Terminal I/O, JSON loading and visual styling live outside the library;
//! it is handed plain values and hands back plain descriptors.

pub mod catalog;
pub mod event;
pub mod interface;
pub mod laws;
pub mod layout;
pub mod render;
pub mod session;
