//! Runtime settings, as plain owned values.
//!
//! Non-volatile storage lives outside this crate; whoever reads it builds a
//! `Settings` from what it holds and falls back to these defaults for the
//! rest. The scroll scales are kept as the stored hundredths, since that is
//! what the store holds.

use vstd::prelude::*;

verus! {

/// The screen width assumed when none is stored.
pub const DEFAULT_SCREEN_WIDTH: u16 = 1920;

/// The screen height assumed when none is stored.
pub const DEFAULT_SCREEN_HEIGHT: u16 = 1080;

/// The server port assumed when none is stored.
pub const DEFAULT_BARRIER_PORT: u16 = 24800;

/// The scroll scale assumed when none is stored, in hundredths.
pub const DEFAULT_SCROLL_SCALE_CENTI: u16 = 100;

/// Everything the client needs to know about its environment.
pub struct Settings {
    /// The Wi-Fi network to join.
    pub wifi_ssid: String,
    /// The Wi-Fi passphrase.
    pub wifi_password: String,
    /// The server's address.
    pub barrier_server: String,
    /// The server's port.
    pub barrier_port: u16,
    /// The name this device announces to the server.
    pub screen_name: String,
    /// The device's screen width in pixels.
    pub screen_width: u16,
    /// The device's screen height in pixels.
    pub screen_height: u16,
    /// Whether the wheel direction is flipped.
    pub reversed_wheel: bool,
    /// The vertical scroll scale, in hundredths.
    pub v_scroll_scale_centi: u16,
    /// The horizontal scroll scale, in hundredths.
    pub h_scroll_scale_centi: u16,
}

impl Settings {
    /// The Wi-Fi network to join.
    pub fn get_wifi_ssid(&self) -> (r: &str)
        ensures
            r@ == self.wifi_ssid@,
    {
        self.wifi_ssid.as_str()
    }

    /// The Wi-Fi passphrase.
    pub fn get_wifi_password(&self) -> (r: &str)
        ensures
            r@ == self.wifi_password@,
    {
        self.wifi_password.as_str()
    }

    /// The server's address.
    pub fn get_barrier_server(&self) -> (r: &str)
        ensures
            r@ == self.barrier_server@,
    {
        self.barrier_server.as_str()
    }

    /// The server's port.
    pub fn get_barrier_port(&self) -> (r: u16)
        ensures
            r == self.barrier_port,
    {
        self.barrier_port
    }

    /// The name this device announces.
    pub fn get_screen_name(&self) -> (r: &str)
        ensures
            r@ == self.screen_name@,
    {
        self.screen_name.as_str()
    }

    /// The device's screen width.
    pub fn get_screen_width(&self) -> (r: u16)
        ensures
            r == self.screen_width,
    {
        self.screen_width
    }

    /// The device's screen height.
    pub fn get_screen_height(&self) -> (r: u16)
        ensures
            r == self.screen_height,
    {
        self.screen_height
    }

    /// Whether the wheel direction is flipped.
    pub fn get_reversed_wheel(&self) -> (r: bool)
        ensures
            r == self.reversed_wheel,
    {
        self.reversed_wheel
    }
}

impl Default for Settings {
    /// The build-time defaults: a full-HD screen, the standard port, plain
    /// scroll direction at unit scale, and empty names to be filled in by
    /// whoever owns the store.
    fn default() -> (r: Settings)
        ensures
            r.wifi_ssid@.len() == 0,
            r.wifi_password@.len() == 0,
            r.barrier_port == DEFAULT_BARRIER_PORT,
            r.screen_width == DEFAULT_SCREEN_WIDTH,
            r.screen_height == DEFAULT_SCREEN_HEIGHT,
            !r.reversed_wheel,
            r.v_scroll_scale_centi == DEFAULT_SCROLL_SCALE_CENTI,
            r.h_scroll_scale_centi == DEFAULT_SCROLL_SCALE_CENTI,
    {
        Settings {
            wifi_ssid: String::new(),
            wifi_password: String::new(),
            barrier_server: "127.0.0.1".to_owned(),
            barrier_port: DEFAULT_BARRIER_PORT,
            screen_name: "ESPARRIER".to_owned(),
            screen_width: DEFAULT_SCREEN_WIDTH,
            screen_height: DEFAULT_SCREEN_HEIGHT,
            reversed_wheel: false,
            v_scroll_scale_centi: DEFAULT_SCROLL_SCALE_CENTI,
            h_scroll_scale_centi: DEFAULT_SCROLL_SCALE_CENTI,
        }
    }
}

} // verus!
