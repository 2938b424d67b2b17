use esparrier::actuator::Actuator;
use esparrier::button::{ButtonState, Debounce};
use esparrier::paste_button::PasteButton;
use esparrier::reports::abs_mouse::AbsMouseReport;
use esparrier::reports::keyboard::KeyboardReport;
use esparrier::reports::{HidReport, HidReportType, KeyCode};
use esparrier::settings::Settings;
use esparrier::status::{status_color, Status};
use esparrier::thread_act::{ActMsg, Mailbox, ThreadedActuator};
use esparrier::wire::{i16_from_be, u16_from_be, u16_to_be, u32_from_be};

#[test]
fn wire_fields_round_trip() {
    assert_eq!(u16_from_be(0x12, 0x34), 0x1234);
    assert_eq!(u32_from_be(0x01, 0x02, 0x03, 0x04), 0x01020304);
    assert_eq!(i16_from_be(0xFF, 0xFE), -2);
    assert_eq!(i16_from_be(0x7F, 0xFF), 32767);
    assert_eq!(u16_to_be(0xABCD), (0xAB, 0xCD));
}

#[test]
fn mailbox_orders_commands_first_in_first_out() {
    // Three enqueued commands come out in exactly the enqueue order.
    let mut mb = Mailbox::new(16);
    assert!(mb.send(ActMsg::KeyDown { key: 1, mask: 0, button: 10 }));
    assert!(mb.send(ActMsg::KeyDown { key: 2, mask: 0, button: 11 }));
    assert!(mb.send(ActMsg::KeyUp { key: 1, mask: 0, button: 10 }));
    assert_eq!(mb.recv(), Some(ActMsg::KeyDown { key: 1, mask: 0, button: 10 }));
    assert_eq!(mb.recv(), Some(ActMsg::KeyDown { key: 2, mask: 0, button: 11 }));
    assert_eq!(mb.recv(), Some(ActMsg::KeyUp { key: 1, mask: 0, button: 10 }));
    assert_eq!(mb.recv(), None);
}

#[test]
fn mailbox_is_bounded() {
    let mut mb = Mailbox::new(2);
    assert!(mb.send(ActMsg::Enter));
    assert!(mb.send(ActMsg::Leave));
    // The third command finds no room and the queue is untouched.
    assert!(!mb.send(ActMsg::ResetOptions));
    assert_eq!(mb.recv(), Some(ActMsg::Enter));
    assert_eq!(mb.recv(), Some(ActMsg::Leave));
    assert_eq!(mb.recv(), None);
}

#[test]
fn threaded_actuator_never_drops() {
    // More commands than the mailbox bound: over the real channel the
    // producer would wait; the model keeps every command, in order.
    let mut actor = ThreadedActuator::new(1920, 1080);
    for key in 0..20u16 {
        actor.key_down(key, 0, key);
    }
    actor.key_up(0, 0, 0);
    for key in 0..20u16 {
        assert_eq!(actor.take_msg(), Some(ActMsg::KeyDown { key, mask: 0, button: key }));
    }
    assert_eq!(actor.take_msg(), Some(ActMsg::KeyUp { key: 0, mask: 0, button: 0 }));
    assert_eq!(actor.take_msg(), None);
}

#[test]
fn threaded_actuator_forwards_in_order() {
    let mut actor = ThreadedActuator::new(1920, 1080);
    assert_eq!(actor.get_screen_size(), (1920, 1080));
    actor.key_down(1, 2, 10);
    actor.key_down(3, 4, 11);
    actor.key_up(1, 2, 10);
    assert_eq!(actor.take_msg(), Some(ActMsg::KeyDown { key: 1, mask: 2, button: 10 }));
    assert_eq!(actor.take_msg(), Some(ActMsg::KeyDown { key: 3, mask: 4, button: 11 }));
    assert_eq!(actor.take_msg(), Some(ActMsg::KeyUp { key: 1, mask: 2, button: 10 }));
    assert_eq!(actor.take_msg(), None);
}

#[test]
fn threaded_actuator_caches_cursor() {
    let mut actor = ThreadedActuator::new(800, 600);
    actor.set_cursor_position(100, 200);
    assert_eq!(actor.get_cursor_position(), (100, 200));
    actor.move_cursor(-30, 50);
    assert_eq!(actor.get_cursor_position(), (70, 250));
    assert_eq!(actor.take_msg(), Some(ActMsg::SetCursorPosition { x: 100, y: 200 }));
    assert_eq!(actor.take_msg(), Some(ActMsg::MoveCursor { x: -30, y: 50 }));
}

#[test]
fn keyboard_presses_and_releases() {
    let mut kb: KeyboardReport<6> = KeyboardReport::new();
    kb.press(4);
    kb.press(5);
    kb.press(4);  // held already: not added twice
    assert_eq!(kb.keycodes().as_slice(), &[4, 5, 0, 0, 0, 0]);
    kb.release(4);
    assert_eq!(kb.keycodes().as_slice(), &[5, 0, 0, 0, 0, 0]);
    kb.release(9);  // releasing a key not held changes nothing
    assert_eq!(kb.keycodes().as_slice(), &[5, 0, 0, 0, 0, 0]);
}

#[test]
fn keyboard_modifiers_fold_into_the_modifier_byte() {
    let mut kb: KeyboardReport<6> = KeyboardReport::new();
    kb.press(0xE1);  // left shift
    kb.press(0xE4);  // right control
    assert_eq!(kb.modifier(), 0x02 | 0x10);
    assert_eq!(kb.keycodes().as_slice(), &[0, 0, 0, 0, 0, 0]);
    kb.release(0xE1);
    assert_eq!(kb.modifier(), 0x10);
    kb.clear();
    assert_eq!(kb.modifier(), 0);
}

#[test]
fn keyboard_rolls_over_the_oldest_key() {
    let mut kb: KeyboardReport<6> = KeyboardReport::new();
    for key in 4..10 {
        kb.press(key);
    }
    assert_eq!(kb.keycodes().as_slice(), &[4, 5, 6, 7, 8, 9]);
    kb.press(30);
    assert_eq!(kb.keycodes().as_slice(), &[5, 6, 7, 8, 9, 30]);
}

#[test]
fn keyboard_compacts_on_release() {
    let mut kb: KeyboardReport<6> = KeyboardReport::new();
    kb.press(4);
    kb.press(5);
    kb.press(6);
    kb.release(5);
    assert_eq!(kb.keycodes().as_slice(), &[4, 6, 0, 0, 0, 0]);
}

#[test]
fn mouse_report_tracks_buttons_and_position() {
    let mut mouse = AbsMouseReport::new();
    assert_eq!(mouse.move_to(100, 200), (0, 100, 200, 0, 0));
    assert_eq!(mouse.mouse_down(0x01), (0x01, 100, 200, 0, 0));
    assert_eq!(mouse.mouse_down(0x04), (0x05, 100, 200, 0, 0));
    assert_eq!(mouse.mouse_up(0x01), (0x04, 100, 200, 0, 0));
    assert_eq!(mouse.mouse_wheel(3, -2), (0x04, 100, 200, 3, -2));
    assert_eq!(mouse.move_by(-10, 25), (0x04, 90, 225, 0, 0));
    // Clearing releases the buttons and deliberately keeps the position.
    assert_eq!(mouse.clear(), (0, 90, 225, 0, 0));
    assert_eq!(mouse.get_position(), (90, 225));
}

#[test]
fn hid_report_routes_events() {
    let mut hid = HidReport::new();
    hid.send(HidReportType::MouseMove { x: 7, y: 8 });
    assert_eq!(hid.get_mouse_position(), (7, 8));
    hid.send(HidReportType::MouseMoveRelative { x: -2, y: 10 });
    assert_eq!(hid.get_mouse_position(), (5, 18));
    hid.send(HidReportType::MouseWheel { scroll: 1, pan: -1 });
    assert_eq!(hid.get_mouse_position(), (5, 18));
    hid.send(HidReportType::MouseMove { x: 7, y: 8 });
    hid.send(HidReportType::KeyPress { key_code: KeyCode::Key(4) });
    assert_eq!(hid.keyboard.keycodes().as_slice(), &[4, 0, 0, 0, 0, 0]);
    hid.send(HidReportType::KeyPress { key_code: KeyCode::Consumer(0xE9) });
    assert_eq!(hid.consumer_control.code, 0xE9);
    hid.send(HidReportType::KeyPress { key_code: KeyCode::AppleExt(3) });
    assert_eq!(hid.apple_ext.code, 3);
    hid.send(HidReportType::KeyRelease { key_code: KeyCode::Consumer(0xE9) });
    assert_eq!(hid.consumer_control.code, 0);
    hid.send(HidReportType::KeyPress { key_code: KeyCode::Unmapped });
    hid.clear();
    assert_eq!(hid.keyboard.modifier(), 0);
    assert_eq!(hid.apple_ext.code, 0);
}

#[test]
fn debounce_reports_down_held_and_up() {
    let mut button = Debounce::new(false);
    let mut events = Vec::new();
    let mut now: u32 = 0;
    for _ in 0..6 {
        now += 10;
        if let Some(e) = button.poll(true, now) {
            events.push(e);
        }
    }
    assert_eq!(events, vec![ButtonState::Down]);
    // Holding past the long-press deadline repeats Held events.
    now = 600;
    if let Some(e) = button.poll(true, now) {
        events.push(e);
    }
    assert_eq!(events, vec![ButtonState::Down, ButtonState::Held]);
    // Ten low samples settle the release.
    for _ in 0..10 {
        now += 10;
        if let Some(e) = button.poll(false, now) {
            events.push(e);
        }
    }
    assert_eq!(events, vec![ButtonState::Down, ButtonState::Held, ButtonState::Up]);
}

#[test]
fn paste_types_shifted_and_plain_characters() {
    let paste = PasteButton::new();
    let mut mb = Mailbox::new(16);
    assert!(paste.send_char(b'A', &mut mb));
    assert_eq!(mb.recv(), Some(ActMsg::HidKeyDown { key: 0xE1 }));
    assert_eq!(mb.recv(), Some(ActMsg::HidKeyDown { key: 0x04 }));
    assert_eq!(mb.recv(), Some(ActMsg::HidKeyUp { key: 0x04 }));
    assert_eq!(mb.recv(), Some(ActMsg::HidKeyUp { key: 0xE1 }));
    assert!(paste.send_char(b'z', &mut mb));
    assert_eq!(mb.recv(), Some(ActMsg::HidKeyDown { key: 0x1D }));
    assert_eq!(mb.recv(), Some(ActMsg::HidKeyUp { key: 0x1D }));
    // A byte with no HID usage types nothing.
    assert!(paste.send_char(0x01, &mut mb));
    assert_eq!(mb.recv(), None);
}

#[test]
fn paste_stops_at_the_terminator() {
    let paste = PasteButton::new();
    let mut mb = Mailbox::new(16);
    assert!(paste.paste_clipboard(b"hi\0junk", &mut mb));
    let mut keys = Vec::new();
    while let Some(m) = mb.recv() {
        keys.push(m);
    }
    assert_eq!(
        keys,
        vec![
            ActMsg::HidKeyDown { key: 0x0B },
            ActMsg::HidKeyUp { key: 0x0B },
            ActMsg::HidKeyDown { key: 0x0C },
            ActMsg::HidKeyUp { key: 0x0C },
        ]
    );
}

#[test]
fn settings_defaults_fit_the_device() {
    let s = Settings::default();
    assert_eq!(s.get_screen_width(), 1920);
    assert_eq!(s.get_screen_height(), 1080);
    assert_eq!(s.get_barrier_port(), 24800);
    assert_eq!(s.get_barrier_server(), "127.0.0.1");
    assert_eq!(s.get_screen_name(), "ESPARRIER");
    assert!(!s.get_reversed_wheel());
    assert_eq!(s.get_wifi_ssid(), "");
    assert_eq!(s.get_wifi_password(), "");
}

#[test]
fn status_colors_match_the_indicator() {
    assert_eq!(status_color(Status::Off), Some((0, 0, 0)));
    assert_eq!(status_color(Status::Start), Some((128, 0, 0)));
    assert_eq!(status_color(Status::WifiConnected), Some((0, 0, 128)));
    assert_eq!(status_color(Status::Activated), Some((0, 64, 0)));
    assert_eq!(status_color(Status::Deactivated), Some((40, 24, 0)));
    assert_eq!(status_color(Status::ClipboardSize(12)), None);
}
