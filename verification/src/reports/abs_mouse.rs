//! The absolute-mouse report state: held buttons and the last position.
//!
//! Each mutating call returns the report values the hardware layer must
//! emit for it — buttons, position, wheel and pan — since emission itself
//! is device I/O and lives outside this crate.

use vstd::prelude::*;

use crate::wire::{wrap_add16, wrap_add16_exec};

verus! {

/// One absolute-mouse report as handed to the host: buttons, x, y, wheel
/// scroll and pan.
pub type MouseReport = (u8, u16, u16, i8, i8);

/// The mouse state behind the absolute-mouse report.
pub struct AbsMouseReport {
    button: u8,
    x: u16,
    y: u16,
}

impl AbsMouseReport {
    /// The bitmask of held buttons.
    pub closed spec fn spec_buttons(&self) -> u8 {
        self.button
    }

    /// The last reported position.
    pub closed spec fn spec_position(&self) -> (u16, u16) {
        (self.x, self.y)
    }

    /// No button held, position at the origin.
    pub fn new() -> (r: AbsMouseReport)
        ensures
            r.spec_buttons() == 0,
            r.spec_position() == (0u16, 0u16),
    {
        AbsMouseReport { button: 0, x: 0, y: 0 }
    }

    /// Moves to an absolute position.
    pub fn move_to(&mut self, x: u16, y: u16) -> (r: MouseReport)
        ensures
            final(self).spec_buttons() == old(self).spec_buttons(),
            final(self).spec_position() == (x, y),
            r == (old(self).spec_buttons(), x, y, 0i8, 0i8),
    {
        self.x = x;
        self.y = y;
        (self.button, self.x, self.y, 0, 0)
    }

    /// Moves by a relative amount, wrapping as 16-bit arithmetic does.
    pub fn move_by(&mut self, x: i16, y: i16) -> (r: MouseReport)
        ensures
            final(self).spec_buttons() == old(self).spec_buttons(),
            final(self).spec_position().0 == wrap_add16(
                old(self).spec_position().0 as int,
                x as int,
            ),
            final(self).spec_position().1 == wrap_add16(
                old(self).spec_position().1 as int,
                y as int,
            ),
            r == (
                old(self).spec_buttons(),
                final(self).spec_position().0,
                final(self).spec_position().1,
                0i8,
                0i8,
            ),
    {
        self.x = wrap_add16_exec(self.x, x);
        self.y = wrap_add16_exec(self.y, y);
        (self.button, self.x, self.y, 0, 0)
    }

    /// Presses the buttons in the mask.
    pub fn mouse_down(&mut self, button: u8) -> (r: MouseReport)
        ensures
            final(self).spec_buttons() == (old(self).spec_buttons() | button),
            final(self).spec_position() == old(self).spec_position(),
            r == (
                final(self).spec_buttons(),
                old(self).spec_position().0,
                old(self).spec_position().1,
                0i8,
                0i8,
            ),
    {
        self.button = self.button | button;
        (self.button, self.x, self.y, 0, 0)
    }

    /// Releases the buttons in the mask.
    pub fn mouse_up(&mut self, button: u8) -> (r: MouseReport)
        ensures
            final(self).spec_buttons() == (old(self).spec_buttons() & !button),
            final(self).spec_position() == old(self).spec_position(),
            r == (
                final(self).spec_buttons(),
                old(self).spec_position().0,
                old(self).spec_position().1,
                0i8,
                0i8,
            ),
    {
        self.button = self.button & !button;
        (self.button, self.x, self.y, 0, 0)
    }

    /// Turns the wheel; the state does not change, only the report carries
    /// the scroll and pan amounts.
    pub fn mouse_wheel(&self, scroll: i8, pan: i8) -> (r: MouseReport)
        ensures
            r == (self.spec_buttons(), self.spec_position().0, self.spec_position().1, scroll, pan),
    {
        (self.button, self.x, self.y, scroll, pan)
    }

    /// Releases every button; the position is deliberately kept.
    pub fn clear(&mut self) -> (r: MouseReport)
        ensures
            final(self).spec_buttons() == 0,
            final(self).spec_position() == old(self).spec_position(),
            r == (0u8, old(self).spec_position().0, old(self).spec_position().1, 0i8, 0i8),
    {
        self.button = 0;
        (self.button, self.x, self.y, 0, 0)
    }

    /// The last reported position.
    pub fn get_position(&self) -> (r: (u16, u16))
        ensures
            r == self.spec_position(),
    {
        (self.x, self.y)
    }
}

} // verus!
