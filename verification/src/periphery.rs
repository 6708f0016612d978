//! The periphery of the machine: timer, keyboard, display and cursor behind
//! one surface. The processor reaches them through it and not otherwise.

use vstd::prelude::*;
use crate::cursor::Cursor;
use crate::display::Display;
use crate::keyboard::{always_answers, KeyState, Keyboard};
use crate::timer::{always_tells, Timer};
use crate::Word;

verus! {

pub trait Periphery {
    /// Whether timer and keyboard can be asked.
    spec fn usable(&self) -> bool;

    /// Whether the display shows the first framebuffer.
    spec fn first_framebuffer_visible(&self) -> bool;

    /// The cursor's blink phase.
    spec fn cursor_phase(&self) -> Cursor;

    /// Asks the timer for the milliseconds since the epoch.
    fn get_ms_since_epoch(&mut self) -> (ms: u64)
        requires
            old(self).usable(),
        ensures
            final(self).usable(),
            final(self).first_framebuffer_visible() == old(self).first_framebuffer_visible(),
            final(self).cursor_phase() == old(self).cursor_phase(),
    ;

    /// Asks the keyboard for the state of the key `key`.
    fn get_keystate(&mut self, key: Word) -> (state: KeyState)
        requires
            old(self).usable(),
        ensures
            final(self).usable(),
            final(self).first_framebuffer_visible() == old(self).first_framebuffer_visible(),
            final(self).cursor_phase() == old(self).cursor_phase(),
    ;

    /// Makes the display show the other framebuffer.
    fn swap_framebuffers(&mut self)
        ensures
            final(self).usable() == old(self).usable(),
            final(self).first_framebuffer_visible() == !old(self).first_framebuffer_visible(),
            final(self).cursor_phase() == old(self).cursor_phase(),
    ;

    fn is_first_framebuffer_visible(&self) -> (visible: bool)
        ensures
            visible == self.first_framebuffer_visible(),
    ;

    fn cursor(&self) -> (cursor: Cursor)
        ensures
            cursor == self.cursor_phase(),
    ;

    /// Brings the cursor's blink phase up to the time `now`, in milliseconds
    /// since the epoch.
    fn update_cursor(&mut self, now: u64)
        requires
            now + 400 <= u64::MAX,
        ensures
            final(self).usable() == old(self).usable(),
            final(self).first_framebuffer_visible() == old(self).first_framebuffer_visible(),
            final(self).cursor_phase() == old(self).cursor_phase().at(now),
    ;
}

/// A periphery made of a timer, a keyboard, a display and a cursor.
pub struct PeripheryImplementation<T, K, D> {
    pub timer: Timer<T>,
    pub keyboard: Keyboard<K>,
    pub display: D,
    pub cursor: Cursor,
}

impl<T: FnMut() -> u64, K: FnMut(Word) -> KeyState, D: Display> Periphery for PeripheryImplementation<
    T,
    K,
    D,
> {
    open spec fn usable(&self) -> bool {
        always_tells::<T>() && always_answers::<K>()
    }

    open spec fn first_framebuffer_visible(&self) -> bool {
        self.display.first_visible()
    }

    open spec fn cursor_phase(&self) -> Cursor {
        self.cursor
    }

    /// Asks the timer's callback once and hands its answer on; keyboard,
    /// display and cursor are not touched.
    fn get_ms_since_epoch(&mut self) -> (ms: u64)
        ensures
            call_ensures(old(self).timer.callback(), (), ms),
            final(self).keyboard == old(self).keyboard,
            final(self).display == old(self).display,
            final(self).cursor == old(self).cursor,
    {
        self.timer.get_ms_since_epoch()
    }

    /// Asks the keyboard's callback once for `key` and hands its answer on;
    /// timer, display and cursor are not touched.
    fn get_keystate(&mut self, key: Word) -> (state: KeyState)
        ensures
            call_ensures(old(self).keyboard.callback(), (key,), state),
            final(self).timer == old(self).timer,
            final(self).display == old(self).display,
            final(self).cursor == old(self).cursor,
    {
        self.keyboard.get_keystate(key)
    }

    fn swap_framebuffers(&mut self) {
        self.display.swap();
    }

    fn is_first_framebuffer_visible(&self) -> (visible: bool) {
        self.display.is_first_framebuffer_visible()
    }

    fn cursor(&self) -> (cursor: Cursor) {
        self.cursor
    }

    fn update_cursor(&mut self, now: u64) {
        self.cursor.update(now);
    }
}

} // verus!
