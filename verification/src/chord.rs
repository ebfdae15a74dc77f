//! The chord of the stock setup: either shift key together with F8.
//!
//! The setup watches three keys, in this order of slots: right shift, left
//! shift, F8.

use vstd::prelude::*;

use crate::entry::KeyStateEntry;
use crate::key::Key;
use crate::state::ButtonState;

verus! {

/// Whether the chord is down in `entries`: one of the two shift slots is
/// pressed, and so is the F8 slot.
pub open spec fn shift_f8_down(entries: Seq<KeyStateEntry>) -> bool {
    &&& entries[0].state == ButtonState::Pressed || entries[1].state == ButtonState::Pressed
    &&& entries[2].state == ButtonState::Pressed
}

/// Gives the three slots their keys. The states stay as they are.
pub fn watch_shift_f8(table: &mut [KeyStateEntry; 3])
    ensures
        final(table)@[0] == (KeyStateEntry { key: Key::ShiftRight, state: old(table)@[0].state }),
        final(table)@[1] == (KeyStateEntry { key: Key::ShiftLeft, state: old(table)@[1].state }),
        final(table)@[2] == (KeyStateEntry { key: Key::F8, state: old(table)@[2].state }),
{
    table[0].set_key(Key::ShiftRight);
    table[1].set_key(Key::ShiftLeft);
    table[2].set_key(Key::F8);
}

/// Whether the chord is down in `table`.
pub fn is_shift_f8(table: &[KeyStateEntry; 3]) -> (down: bool)
    ensures
        down == shift_f8_down(table@),
{
    (table[0].is_pressed() || table[1].is_pressed()) && table[2].is_pressed()
}

} // verus!
