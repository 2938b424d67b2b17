//! The HID report layer: pure state machines for the keyboard, mouse,
//! consumer-control and vendor-extension reports, and the router that feeds
//! them. Emitting a report to the host is device I/O and happens outside
//! this crate, against the state and values these types hand back.

use vstd::prelude::*;

pub mod abs_mouse;
pub mod apple_ext;
pub mod consumer_control;
pub mod keyboard;

use abs_mouse::{AbsMouseReport, MouseReport};
use apple_ext::AppleExtReport;
use consumer_control::ConsumerControlReport;
use keyboard::KeyboardReport;

verus! {

/// One key, routed to the report that can carry it.
#[derive(Debug, Clone, Copy, PartialEq, Eq, Structural)]
pub enum KeyCode {
    /// No HID usage exists for the key; it is dropped.
    Unmapped,
    /// A plain keyboard usage code.
    Key(u8),
    /// A consumer-control usage code.
    Consumer(u16),
    /// A vendor-extension code.
    AppleExt(u8),
}

/// One input event for the report layer.
#[derive(Debug, Clone, Copy, PartialEq, Eq, Structural)]
pub enum HidReportType {
    KeyPress { key_code: KeyCode },
    KeyRelease { key_code: KeyCode },
    MouseMove { x: u16, y: u16 },
    MouseMoveRelative { x: i16, y: i16 },
    MouseDown { button: u8 },
    MouseUp { button: u8 },
    MouseWheel { scroll: i8, pan: i8 },
}

/// The whole device state: every report the device can send.
pub struct HidReport {
    /// The absolute mouse.
    pub mouse: AbsMouseReport,
    /// The six-key rollover keyboard.
    pub keyboard: KeyboardReport<6>,
    /// The consumer-control report.
    pub consumer_control: ConsumerControlReport,
    /// The vendor-extension report.
    pub apple_ext: AppleExtReport,
}

impl HidReport {
    /// Everything released, mouse at the origin.
    pub fn new() -> (r: HidReport)
        ensures
            r.mouse.spec_buttons() == 0,
            r.mouse.spec_position() == (0u16, 0u16),
            r.keyboard.spec_modifier() == 0,
            r.consumer_control.code == 0,
            r.apple_ext.code == 0,
    {
        HidReport {
            mouse: AbsMouseReport::new(),
            keyboard: KeyboardReport::new(),
            consumer_control: ConsumerControlReport::new(),
            apple_ext: AppleExtReport::new(),
        }
    }

    /// Where the mouse stands.
    pub fn get_mouse_position(&self) -> (r: (u16, u16))
        ensures
            r == self.mouse.spec_position(),
    {
        self.mouse.get_position()
    }

    /// Routes one event to exactly the report that handles it, leaving
    /// every other report untouched; a key without a HID usage changes
    /// nothing at all.
    pub fn send(&mut self, report: HidReportType)
        ensures
            match report {
                HidReportType::MouseMove { x, y } => final(self).mouse.spec_position() == (x, y)
                    && final(self).mouse.spec_buttons() == old(self).mouse.spec_buttons()
                    && final(self).keyboard == old(self).keyboard
                    && final(self).consumer_control == old(self).consumer_control
                    && final(self).apple_ext == old(self).apple_ext,
                HidReportType::MouseMoveRelative { x, y } => final(self).mouse.spec_position().0
                    == crate::wire::wrap_add16(old(self).mouse.spec_position().0 as int, x as int)
                    && final(self).mouse.spec_position().1 == crate::wire::wrap_add16(
                    old(self).mouse.spec_position().1 as int,
                    y as int,
                ) && final(self).mouse.spec_buttons() == old(self).mouse.spec_buttons() && final(self).keyboard == old(self).keyboard && final(self).consumer_control == old(self).consumer_control && final(self).apple_ext == old(self).apple_ext,
                HidReportType::MouseDown { button } => final(self).mouse.spec_buttons() == (old(self).mouse.spec_buttons() | button) && final(self).mouse.spec_position() == old(self).mouse.spec_position() && final(self).keyboard == old(self).keyboard && final(self).consumer_control == old(self).consumer_control && final(self).apple_ext == old(self).apple_ext,
                HidReportType::MouseUp { button } => final(self).mouse.spec_buttons() == (old(self).mouse.spec_buttons() & !button) && final(self).mouse.spec_position() == old(self).mouse.spec_position() && final(self).keyboard == old(self).keyboard && final(self).consumer_control == old(self).consumer_control && final(self).apple_ext == old(self).apple_ext,
                HidReportType::MouseWheel { .. } => *final(self) == *old(self),
                HidReportType::KeyPress { key_code: KeyCode::Unmapped } => *final(self) == *old(self),
                HidReportType::KeyRelease { key_code: KeyCode::Unmapped } => *final(self) == *old(self),
                HidReportType::KeyPress { key_code: KeyCode::Consumer(code) } => final(self).consumer_control.code == code && final(self).mouse == old(self).mouse && final(self).keyboard == old(self).keyboard && final(self).apple_ext == old(self).apple_ext,
                HidReportType::KeyRelease { key_code: KeyCode::Consumer(_) } => final(self).consumer_control.code == 0 && final(self).mouse == old(self).mouse && final(self).keyboard == old(self).keyboard && final(self).apple_ext == old(self).apple_ext,
                HidReportType::KeyPress { key_code: KeyCode::AppleExt(code) } => final(self).apple_ext.code == code && final(self).mouse == old(self).mouse && final(self).keyboard == old(self).keyboard && final(self).consumer_control == old(self).consumer_control,
                HidReportType::KeyRelease { key_code: KeyCode::AppleExt(_) } => final(self).apple_ext.code == 0 && final(self).mouse == old(self).mouse && final(self).keyboard == old(self).keyboard && final(self).consumer_control == old(self).consumer_control,
                HidReportType::KeyPress { key_code: KeyCode::Key(k) } => final(self).keyboard.spec_keys().len() == 6 && final(self).mouse == old(self).mouse && final(self).consumer_control == old(self).consumer_control && final(self).apple_ext == old(self).apple_ext && (match keyboard::modifier_bit(k) {
                    Some(b) => final(self).keyboard.spec_modifier() == (old(self).keyboard.spec_modifier() | b) && final(self).keyboard.spec_keys() == old(self).keyboard.spec_keys(),
                    None => final(self).keyboard.spec_modifier() == old(self).keyboard.spec_modifier() && keyboard::spec_pressed(
                        old(self).keyboard.spec_keys(),
                        k,
                        final(self).keyboard.spec_keys(),
                    ),
                }),
                HidReportType::KeyRelease { key_code: KeyCode::Key(k) } => final(self).keyboard.spec_keys().len() == 6 && final(self).mouse == old(self).mouse && final(self).consumer_control == old(self).consumer_control && final(self).apple_ext == old(self).apple_ext && (match keyboard::modifier_bit(k) {
                    Some(b) => final(self).keyboard.spec_modifier() == (old(self).keyboard.spec_modifier() & !b) && final(self).keyboard.spec_keys() == old(self).keyboard.spec_keys(),
                    None => final(self).keyboard.spec_modifier() == old(self).keyboard.spec_modifier() && keyboard::spec_released(
                        old(self).keyboard.spec_keys(),
                        k,
                        final(self).keyboard.spec_keys(),
                    ),
                }),
            },
    {
        match report {
            HidReportType::KeyPress { key_code } => {
                match key_code {
                    KeyCode::Unmapped => (),
                    KeyCode::Consumer(code) => {
                        let _ = self.consumer_control.press(code);
                    },
                    KeyCode::Key(hid_key) => {
                        self.keyboard.press(hid_key);
                    },
                    KeyCode::AppleExt(code) => {
                        let _ = self.apple_ext.press(code);
                    },
                }
            },
            HidReportType::KeyRelease { key_code } => {
                match key_code {
                    KeyCode::Unmapped => (),
                    KeyCode::Consumer(_) => {
                        let _ = self.consumer_control.release();
                    },
                    KeyCode::Key(hid_key) => {
                        self.keyboard.release(hid_key);
                    },
                    KeyCode::AppleExt(_) => {
                        let _ = self.apple_ext.release();
                    },
                }
            },
            HidReportType::MouseMove { x, y } => {
                let _ = self.mouse.move_to(x, y);
            },
            HidReportType::MouseMoveRelative { x, y } => {
                let _ = self.mouse.move_by(x, y);
            },
            HidReportType::MouseDown { button } => {
                let _ = self.mouse.mouse_down(button);
            },
            HidReportType::MouseUp { button } => {
                let _ = self.mouse.mouse_up(button);
            },
            HidReportType::MouseWheel { scroll, pan } => {
                let _ = self.mouse.mouse_wheel(scroll, pan);
            },
        }
    }

    /// Releases everything on every report.
    pub fn clear(&mut self)
        ensures
            final(self).mouse.spec_buttons() == 0,
            final(self).mouse.spec_position() == old(self).mouse.spec_position(),
            final(self).keyboard.spec_modifier() == 0,
            final(self).consumer_control.code == 0,
            final(self).apple_ext.code == 0,
    {
        let _ = self.mouse.clear();
        self.keyboard.clear();
        let _ = self.consumer_control.clear();
        let _ = self.apple_ext.clear();
    }
}

} // verus!
