//! The keyboard, as the machine sees it: a callback that tells whether a key
//! is held down.

use vstd::prelude::*;
use crate::Word;

verus! {

#[derive(Clone, Copy, Debug, PartialEq, Eq, Structural)]
pub enum KeyState {
    Down,
    Up,
}

/// Whether every value of the callback type may be called with every keycode.
pub open spec fn always_answers<F: FnMut(Word) -> KeyState>() -> bool {
    forall|callback: F, key: Word| #[trigger] call_requires(callback, (key,))
}

pub struct Keyboard<F> {
    get_keystate_callback: F,
}

impl<F: FnMut(Word) -> KeyState> Keyboard<F> {
    /// The callback that the keyboard asks.
    pub closed spec fn callback(self) -> F {
        self.get_keystate_callback
    }

    pub fn new(get_keystate_callback: F) -> (keyboard: Self)
        ensures
            keyboard.callback() == get_keystate_callback,
    {
        Keyboard { get_keystate_callback }
    }

    /// Asks the callback once for `key` and hands its answer on.
    pub fn get_keystate(&mut self, key: Word) -> (state: KeyState)
        requires
            always_answers::<F>(),
        ensures
            call_ensures(old(self).callback(), (key,), state),
    {
        (self.get_keystate_callback)(key)
    }
}

} // verus!
