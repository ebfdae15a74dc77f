//! Turning raw keyboard events into changes of the table.
//!
//! The dispatcher owns the table for a listening session. Whoever runs the
//! keyboard hook hands it each raw event in the order of arrival; the
//! dispatcher updates the table and says what, if anything, is to be reported
//! to the host's handler.

use vstd::prelude::*;

use crate::entry::KeyStateEntry;
use crate::key::Key;
use crate::state::ButtonState;
use crate::table::{first_match, KeyStateTable};

verus! {

/// One event as the keyboard hook delivers it.
#[derive(Debug, PartialEq, Eq, Structural, Clone, Copy)]
pub enum RawEvent {
    /// A key went down, or is repeating while held.
    KeyPress(Key),
    /// A key came up.
    KeyRelease(Key),
    /// Anything that is not about a key.
    Other,
}

impl RawEvent {
    /// The key that the event is about, if it is about one.
    pub open spec fn key(self) -> Option<Key> {
        match self {
            RawEvent::KeyPress(key) => Some(key),
            RawEvent::KeyRelease(key) => Some(key),
            RawEvent::Other => None,
        }
    }
}

/// What the handler is told after a matched event: the key, and the state
/// that its entry is in now.
#[derive(Debug, PartialEq, Eq, Structural, Clone, Copy)]
pub struct KeyChange {
    pub key: Key,
    pub state: ButtonState,
}

/// The table after an event for `key`: the first entry that watches `key` has
/// its state swapped; without such an entry nothing changes.
pub open spec fn toggled(entries: Seq<KeyStateEntry>, key: Key) -> Seq<KeyStateEntry> {
    match first_match(entries, key) {
        Some(i) => entries.update(i, entries[i].inverted()),
        None => entries,
    }
}

/// What an event for `key` makes the handler hear, given the table before it:
/// the key and the swapped state of the first entry that watches it; without
/// such an entry, nothing.
pub open spec fn change_of(entries: Seq<KeyStateEntry>, key: Key) -> Option<KeyChange> {
    match first_match(entries, key) {
        Some(i) => Some(KeyChange { key, state: entries[i].state.inverted() }),
        None => None,
    }
}

/// The table after `event`. Press and release count alike.
pub open spec fn after_event(entries: Seq<KeyStateEntry>, event: RawEvent) -> Seq<KeyStateEntry> {
    match event.key() {
        Some(key) => toggled(entries, key),
        None => entries,
    }
}

/// What `event` makes the handler hear, given the table before it.
pub open spec fn reported(entries: Seq<KeyStateEntry>, event: RawEvent) -> Option<KeyChange> {
    match event.key() {
        Some(key) => change_of(entries, key),
        None => None,
    }
}

/// The state of one listening session: the table of watched keys.
#[derive(Debug)]
pub struct EventDispatcher<const N: usize> {
    table: KeyStateTable<N>,
}

impl<const N: usize> View for EventDispatcher<N> {
    type V = Seq<KeyStateEntry>;

    closed spec fn view(&self) -> Seq<KeyStateEntry> {
        self.table@
    }
}

impl<const N: usize> EventDispatcher<N> {
    /// A session over `table`, as its initializer left it.
    pub fn new(table: KeyStateTable<N>) -> (dispatcher: EventDispatcher<N>)
        ensures
            dispatcher@ == table@,
    {
        EventDispatcher { table }
    }

    /// The entries as they stand, for the handler to read.
    pub fn entries(&self) -> (entries: &[KeyStateEntry; N])
        ensures
            entries@ == self@,
    {
        &self.table.0
    }

    /// Takes one raw event into account.
    ///
    /// An event for a watched key swaps the state of the first entry that
    /// watches it, whether the event is a press or a release, and is reported
    /// with the key and the new state. Any other event leaves the table as it
    /// is and is not reported.
    pub fn dispatch(&mut self, event: RawEvent) -> (change: Option<KeyChange>)
        ensures
            final(self)@ == after_event(old(self)@, event),
            change == reported(old(self)@, event),
    {
        match event {
            RawEvent::KeyPress(key) => self.toggle(key),
            RawEvent::KeyRelease(key) => self.toggle(key),
            RawEvent::Other => None,
        }
    }

    /// Finds the entry for `key`, swaps its state, and says what to report.
    fn toggle(&mut self, key: Key) -> (change: Option<KeyChange>)
        ensures
            final(self)@ == toggled(old(self)@, key),
            change == change_of(old(self)@, key),
    {
        match self.table.find_mut(key) {
            Some(entry) => {
                entry.invert_state();
                Some(KeyChange { key: entry.key, state: entry.state })
            },
            None => None,
        }
    }
}

} // verus!
