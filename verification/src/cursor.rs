//! The terminal's caret: its mode, which the program sets in memory, and its
//! blink phase, which follows the clock.

use vstd::prelude::*;
use crate::Word;

verus! {

/// How the caret is shown; the program writes the number of a mode into the
/// cursor-mode word.
#[derive(Clone, Copy, Debug, PartialEq, Eq, Structural)]
pub enum CursorMode {
    Blinking,
    Visible,
    Invisible,
}

impl CursorMode {
    /// The number that stands for the mode in memory.
    pub open spec fn number(self) -> Word {
        match self {
            CursorMode::Blinking => 0,
            CursorMode::Visible => 1,
            CursorMode::Invisible => 2,
        }
    }

    pub fn int_value(self) -> (value: Word)
        ensures
            value == self.number(),
    {
        match self {
            CursorMode::Blinking => 0,
            CursorMode::Visible => 1,
            CursorMode::Invisible => 2,
        }
    }

    /// The mode that `value` stands for, if it stands for one.
    pub fn from_int(value: Word) -> (mode: Option<CursorMode>)
        ensures
            match mode {
                Some(mode) => mode.number() == value,
                None => value > 2,
            },
    {
        if value == 0 {
            Some(CursorMode::Blinking)
        } else if value == 1 {
            Some(CursorMode::Visible)
        } else if value == 2 {
            Some(CursorMode::Invisible)
        } else {
            None
        }
    }
}

/// The blink phase of the caret. Times are milliseconds since the epoch.
#[derive(Clone, Copy, Debug, PartialEq, Eq, Structural)]
pub struct Cursor {
    /// Whether the blink phase is on.
    pub visible: bool,
    /// When the phase changes next.
    pub time_of_next_toggle: u64,
}

impl Cursor {
    /// The milliseconds between two changes of the blink phase.
    pub const TOGGLE_INTERVAL: u64 = 400;

    /// The cursor at time `now`: once `now` has reached the time of the next
    /// toggle, the phase has flipped and the next toggle is one interval
    /// after `now`; before that nothing has changed.
    pub open spec fn at(self, now: u64) -> Cursor {
        if now >= self.time_of_next_toggle {
            Cursor { visible: !self.visible, time_of_next_toggle: (now + 400) as u64 }
        } else {
            self
        }
    }

    /// A cursor whose phase is on and that toggles first one interval after
    /// `now`.
    pub fn new(now: u64) -> (cursor: Cursor)
        requires
            now + 400 <= u64::MAX,
        ensures
            cursor == (Cursor { visible: true, time_of_next_toggle: (now + 400) as u64 }),
    {
        Cursor { visible: true, time_of_next_toggle: now + Self::TOGGLE_INTERVAL }
    }

    /// Brings the blink phase up to the time `now`.
    pub fn update(&mut self, now: u64)
        requires
            now + 400 <= u64::MAX,
        ensures
            *final(self) == old(self).at(now),
    {
        if now >= self.time_of_next_toggle {
            self.visible = !self.visible;
            self.time_of_next_toggle = now + Self::TOGGLE_INTERVAL;
        }
    }

    /// Whether the caret is drawn under `mode`: always when the mode is
    /// visible, never when it is invisible, and by the blink phase otherwise.
    /// A number that stands for no mode counts as blinking.
    pub open spec fn shows(self, mode: Word) -> bool {
        if mode == CursorMode::Visible.number() {
            true
        } else if mode == CursorMode::Invisible.number() {
            false
        } else {
            self.visible
        }
    }

    pub fn is_shown(&self, mode: Word) -> (shown: bool)
        ensures
            shown == self.shows(mode),
    {
        match CursorMode::from_int(mode) {
            Some(CursorMode::Visible) => true,
            Some(CursorMode::Invisible) => false,
            Some(CursorMode::Blinking) => self.visible,
            None => self.visible,
        }
    }
}

} // verus!
