//! The capability interface that turns decoded input events into device
//! effects. The session calls these; hardware drivers, forwarding handles
//! and test recorders implement them.

use vstd::prelude::*;

verus! {

/// Everything the session may ask of the input hardware.
pub trait Actuator {
    /// The server accepted this device.
    fn connected(&mut self);

    /// The connection is gone.
    fn disconnected(&mut self);

    /// The device's screen resolution, for coordinate scaling.
    fn get_screen_size(&self) -> (u16, u16);

    /// Where the cursor currently stands.
    fn get_cursor_position(&self) -> (u16, u16);

    /// Places the cursor at an absolute position.
    fn set_cursor_position(&mut self, x: u16, y: u16);

    /// Moves the cursor by a relative amount.
    fn move_cursor(&mut self, x: i16, y: i16);

    /// Presses a mouse button.
    fn mouse_down(&mut self, button: i8);

    /// Releases a mouse button.
    fn mouse_up(&mut self, button: i8);

    /// Turns the mouse wheel.
    fn mouse_wheel(&mut self, x: i16, y: i16);

    /// Presses a key, identified by the server's key id, mask and button.
    fn key_down(&mut self, key: u16, mask: u16, button: u16);

    /// Repeats a held key.
    fn key_repeat(&mut self, key: u16, mask: u16, button: u16, count: u16);

    /// Releases a key.
    fn key_up(&mut self, key: u16, mask: u16, button: u16);

    /// Stores a received clipboard payload.
    fn set_clipboard(&mut self, data: Vec<u8>);

    /// The server announced a heartbeat interval.
    fn set_options(&mut self, heartbeat: u32);

    /// The server reset all options.
    fn reset_options(&mut self);

    /// The cursor entered this screen.
    fn enter(&mut self);

    /// The cursor left this screen.
    fn leave(&mut self);

    /// Presses a key given directly as a HID code.
    fn hid_key_down(&mut self, key: u8);

    /// Releases a key given directly as a HID code.
    fn hid_key_up(&mut self, key: u8);
}

} // verus!
