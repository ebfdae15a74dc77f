//! One watched key together with its tracked state.

use vstd::prelude::*;

use crate::key::Key;
use crate::state::ButtonState;

verus! {

/// A watched key and whether it currently counts as held down.
///
/// `==` on entries compares both the key and the state. Lookup in a table goes
/// by the key alone.
#[derive(Debug, PartialEq, Eq, Structural, Clone, Copy)]
pub struct KeyStateEntry {
    pub key: Key,
    pub state: ButtonState,
}

impl KeyStateEntry {
    /// This entry with its state swapped and its key kept.
    pub open spec fn inverted(self) -> KeyStateEntry {
        KeyStateEntry { key: self.key, state: self.state.inverted() }
    }

    /// An entry for `key` in the pressed state.
    #[inline]
    pub fn from_press(key: Key) -> (entry: KeyStateEntry)
        ensures
            entry == (KeyStateEntry { key, state: ButtonState::Pressed }),
    {
        KeyStateEntry { key, state: ButtonState::Pressed }
    }

    /// An entry for `key` in the released state.
    #[inline]
    pub fn from_release(key: Key) -> (entry: KeyStateEntry)
        ensures
            entry == (KeyStateEntry { key, state: ButtonState::Released }),
    {
        KeyStateEntry { key, state: ButtonState::Released }
    }

    /// Overwrites the state; the key stays.
    #[inline]
    pub fn set_state(&mut self, state: ButtonState)
        ensures
            *final(self) == (KeyStateEntry { key: old(self).key, state }),
    {
        self.state = state;
    }

    /// Swaps the state for the other one, whatever it was; the key stays.
    #[inline]
    pub fn invert_state(&mut self)
        ensures
            *final(self) == old(self).inverted(),
    {
        self.state.invert();
    }

    /// Overwrites the key; the state stays.
    #[inline]
    pub fn set_key(&mut self, key: Key)
        ensures
            *final(self) == (KeyStateEntry { key, state: old(self).state }),
    {
        self.key = key;
    }

    /// Whether the key counts as held down.
    #[inline]
    pub fn is_pressed(&self) -> (pressed: bool)
        ensures
            pressed == (self.state == ButtonState::Pressed),
    {
        self.state.is_pressed()
    }

    /// Whether the key counts as up.
    #[inline]
    pub fn is_released(&self) -> (released: bool)
        ensures
            released == (self.state == ButtonState::Released),
    {
        self.state.is_released()
    }
}

impl Default for KeyStateEntry {
    /// The content of a slot that no key was assigned to yet: a placeholder
    /// key, released.
    #[inline]
    fn default() -> (entry: KeyStateEntry)
        ensures
            entry == (KeyStateEntry { key: Key::Backspace, state: ButtonState::Released }),
    {
        KeyStateEntry { key: Key::Backspace, state: ButtonState::Released }
    }
}

impl std::ops::Deref for KeyStateEntry {
    type Target = Key;

    /// An entry stands for its key wherever a key is read.
    #[inline]
    fn deref(&self) -> (key: &Key)
        ensures
            *key == self.key,
    {
        &self.key
    }
}

} // verus!
