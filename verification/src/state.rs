//! The two-valued state of a button.

use vstd::prelude::*;

verus! {

/// Whether a button is currently held down.
#[derive(Debug, PartialEq, Eq, Structural, Clone, Copy)]
pub enum ButtonState {
    Pressed,
    Released,
}

impl ButtonState {
    /// The other state: `Pressed` for `Released` and `Released` for `Pressed`.
    pub open spec fn inverted(self) -> ButtonState {
        match self {
            ButtonState::Pressed => ButtonState::Released,
            ButtonState::Released => ButtonState::Pressed,
        }
    }

    /// Swaps the state for the other one, whatever it was.
    #[inline]
    pub fn invert(&mut self)
        ensures
            *final(self) == old(self).inverted(),
    {
        *self = match *self {
            ButtonState::Pressed => ButtonState::Released,
            ButtonState::Released => ButtonState::Pressed,
        }
    }

    /// Whether the state is `Pressed`.
    #[inline]
    pub fn is_pressed(&self) -> (pressed: bool)
        ensures
            pressed == (*self == ButtonState::Pressed),
    {
        matches!(self, ButtonState::Pressed)
    }

    /// Whether the state is `Released`.
    #[inline]
    pub fn is_released(&self) -> (released: bool)
        ensures
            released == (*self == ButtonState::Released),
    {
        matches!(self, ButtonState::Released)
    }
}

impl Default for ButtonState {
    /// A button starts out released.
    fn default() -> (state: ButtonState)
        ensures
            state == ButtonState::Released,
    {
        ButtonState::Released
    }
}

} // verus!
