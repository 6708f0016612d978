//! The display's state: which of the two framebuffers is shown. The program
//! draws into the other one and swaps.

use vstd::prelude::*;
use crate::address_constants::{FIRST_FRAMEBUFFER_START, SECOND_FRAMEBUFFER_START};
use crate::Address;

verus! {

/// The start of the framebuffer that is shown.
pub open spec fn visible_address(first_framebuffer_visible: bool) -> Address {
    if first_framebuffer_visible {
        FIRST_FRAMEBUFFER_START
    } else {
        SECOND_FRAMEBUFFER_START
    }
}

/// The start of the framebuffer that is not shown.
pub open spec fn invisible_address(first_framebuffer_visible: bool) -> Address {
    if first_framebuffer_visible {
        SECOND_FRAMEBUFFER_START
    } else {
        FIRST_FRAMEBUFFER_START
    }
}

pub trait Display {
    /// Whether the first framebuffer is the one that is shown.
    spec fn first_visible(&self) -> bool;

    /// Shows the other framebuffer.
    fn swap(&mut self)
        ensures
            final(self).first_visible() == !old(self).first_visible(),
    ;

    fn is_first_framebuffer_visible(&self) -> (visible: bool)
        ensures
            visible == self.first_visible(),
    ;

    /// The start of the framebuffer that is not shown.
    fn invisible_framebuffer_address(&self) -> (address: Address)
        ensures
            address == invisible_address(self.first_visible()),
    {
        if self.is_first_framebuffer_visible() {
            SECOND_FRAMEBUFFER_START
        } else {
            FIRST_FRAMEBUFFER_START
        }
    }

    /// The start of the framebuffer that is shown.
    fn visible_framebuffer_address(&self) -> (address: Address)
        ensures
            address == visible_address(self.first_visible()),
    {
        if self.is_first_framebuffer_visible() {
            FIRST_FRAMEBUFFER_START
        } else {
            SECOND_FRAMEBUFFER_START
        }
    }
}

/// A display without a screen.
pub struct MockDisplay {
    first_framebuffer_visible: bool,
}

impl MockDisplay {
    /// A display that shows the first framebuffer.
    pub fn new(_handle: &mut (), _thread: &()) -> (display: Self)
        ensures
            display.first_visible(),
    {
        Self { first_framebuffer_visible: true }
    }
}

impl Display for MockDisplay {
    closed spec fn first_visible(&self) -> bool {
        self.first_framebuffer_visible
    }

    fn swap(&mut self) {
        self.first_framebuffer_visible = !self.first_framebuffer_visible;
    }

    fn is_first_framebuffer_visible(&self) -> (visible: bool) {
        self.first_framebuffer_visible
    }
}

/// The display's state where the host draws the framebuffer itself.
pub struct DisplayImplementation {
    first_framebuffer_visible: bool,
}

impl DisplayImplementation {
    /// A display that shows the first framebuffer.
    pub fn new(_handle: &mut (), _thread: &()) -> (display: Self)
        ensures
            display.first_visible(),
    {
        DisplayImplementation { first_framebuffer_visible: true }
    }
}

impl Display for DisplayImplementation {
    closed spec fn first_visible(&self) -> bool {
        self.first_framebuffer_visible
    }

    fn swap(&mut self) {
        self.first_framebuffer_visible = !self.first_framebuffer_visible;
    }

    fn is_first_framebuffer_visible(&self) -> (visible: bool) {
        self.first_framebuffer_visible
    }
}

/// Two swaps in a row show the framebuffer that was shown before them.
pub proof fn swapping_twice_is_identity<D: Display>(before: D, between: D, after: D)
    requires
        between.first_visible() == !before.first_visible(),
        after.first_visible() == !between.first_visible(),
    ensures
        after.first_visible() == before.first_visible(),
        visible_address(after.first_visible()) == visible_address(before.first_visible()),
        invisible_address(after.first_visible()) == invisible_address(before.first_visible()),
{
}

/// The framebuffer that is not shown is never the one that is shown, and the
/// two do not overlap.
pub proof fn invisible_is_not_visible(first_framebuffer_visible: bool)
    ensures
        invisible_address(first_framebuffer_visible) != visible_address(first_framebuffer_visible),
        invisible_address(first_framebuffer_visible) == visible_address(!first_framebuffer_visible),
        invisible_address(first_framebuffer_visible) + crate::address_constants::FRAMEBUFFER_SIZE
            <= visible_address(first_framebuffer_visible) || visible_address(
            first_framebuffer_visible,
        ) + crate::address_constants::FRAMEBUFFER_SIZE <= invisible_address(
            first_framebuffer_visible,
        ),
{
}

} // verus!
