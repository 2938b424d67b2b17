//! Status reporting: what the device wants its indicator to say, and the
//! color each status maps to. Driving an LED or a display is hardware I/O
//! and lives outside this crate, behind `StatusDisplay`.

use vstd::prelude::*;

verus! {

/// What the device is doing, for the status indicator.
#[derive(Debug, Clone, Copy, PartialEq, Eq, Structural)]
pub enum Status {
    /// Nothing to show.
    Off,
    /// Booting and not yet on the network.
    Start,
    /// On the network, not yet talking to a server.
    WifiConnected,
    /// The cursor is on this screen.
    Activated,
    /// Connected, the cursor is elsewhere.
    Deactivated,
    /// A clipboard payload of this many bytes just arrived.
    ClipboardSize(usize),
}

/// Implemented by whatever renders the status.
pub trait StatusDisplay {
    /// Shows a status.
    fn set_status(&self, status: Status);

    /// Signals a condition needing a person's eye.
    fn need_attention(&self, code: u8);
}

/// The indicator color for a status, as red, green and blue levels; a
/// clipboard announcement keeps the previous color.
pub fn status_color(status: Status) -> (r: Option<(u8, u8, u8)>)
    ensures
        r == match status {
            Status::Off => Some((0u8, 0u8, 0u8)),
            Status::Start => Some((128u8, 0u8, 0u8)),
            Status::WifiConnected => Some((0u8, 0u8, 128u8)),
            Status::Activated => Some((0u8, 64u8, 0u8)),
            Status::Deactivated => Some((40u8, 24u8, 0u8)),
            Status::ClipboardSize(_) => None::<(u8, u8, u8)>,
        },
{
    match status {
        Status::Off => Some((0, 0, 0)),
        Status::Start => Some((128, 0, 0)),
        Status::WifiConnected => Some((0, 0, 128)),
        Status::Activated => Some((0, 64, 0)),
        Status::Deactivated => Some((40, 24, 0)),
        Status::ClipboardSize(_) => None,
    }
}

} // verus!
