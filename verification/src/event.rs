//! Events of the interactive loop, and the tick-driven event source's
//! bookkeeping.
//!
//! The source waits for a key until its deadline: a key becomes exactly one
//! `Input` and leaves the deadline alone, so input is delivered with minimal
//! latency; no key by the deadline becomes exactly one `Tick` and advances
//! the deadline by one tick, so the consumer is woken at least once per tick
//! even with no input. The blocking wait itself is terminal I/O and lives
//! outside the library; it hands in what it observed.

use vstd::prelude::*;

verus! {

/// A key as the viewer reads it.
#[derive(PartialEq, Eq, Structural, Clone, Copy, Debug)]
pub enum Key {
    Left,
    Right,
    Up,
    Down,
    /// A printable character.
    Char(char),
    /// Any other key; the viewer ignores them all.
    Other,
}

/// What the event source hands the main loop.
#[derive(PartialEq, Eq, Structural, Clone, Copy, Debug)]
pub enum Event {
    /// A key arrived before the tick deadline.
    Input(Key),
    /// No key arrived by the deadline.
    Tick,
}

/// The event source's state: the fixed tick cadence and the next tick's
/// deadline, both in milliseconds on the caller's clock.
pub struct EventSource {
    pub tick_rate: u64,
    pub deadline: u64,
}

impl EventSource {
    /// A source that ticks every `tick_rate` milliseconds, first at
    /// `now + tick_rate`.
    pub fn new(tick_rate: u64, now: u64) -> (r: EventSource)
        requires
            now + tick_rate <= u64::MAX,
        ensures
            r.tick_rate == tick_rate,
            r.deadline == now + tick_rate,
    {
        EventSource { tick_rate, deadline: now + tick_rate }
    }

    /// Turn one wait's outcome into the event to deliver. A key that arrived
    /// before the deadline becomes exactly one `Input` and does not move the
    /// deadline; no key by the deadline becomes exactly one `Tick` and
    /// advances the deadline by exactly one tick.
    pub fn on_wait(&mut self, key: Option<Key>) -> (e: Event)
        requires
            key is None ==> old(self).deadline + old(self).tick_rate <= u64::MAX,
        ensures
            final(self).tick_rate == old(self).tick_rate,
            match key {
                Some(k) => {
                    &&& e == Event::Input(k)
                    &&& final(self).deadline == old(self).deadline
                },
                None => {
                    &&& e == Event::Tick
                    &&& final(self).deadline == old(self).deadline + old(self).tick_rate
                },
            },
    {
        match key {
            Some(k) => Event::Input(k),
            None => {
                self.deadline = self.deadline + self.tick_rate;
                Event::Tick
            },
        }
    }
}

} // verus!
