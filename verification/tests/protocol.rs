use esparrier::client::{handshake, heartbeat_timeout_ms, scale_position, session_step, start,
    SessionAction, SessionState};
use esparrier::thread_act::ActMsg;
use esparrier::client::ClipboardStage;
use esparrier::error::{ConnectionError, PacketError};
use esparrier::packet::Packet;
use esparrier::packet_stream::{MemStream, PacketStream};
use esparrier::actuator::Actuator;

fn frame(tag: &[u8; 4], payload: &[u8]) -> Vec<u8> {
    let mut out = Vec::new();
    let size = 4 + payload.len() as u32;
    out.extend_from_slice(&size.to_be_bytes());
    out.extend_from_slice(tag);
    out.extend_from_slice(payload);
    out
}

fn stream_of(bytes: Vec<u8>) -> PacketStream<MemStream> {
    PacketStream::new(MemStream::new(bytes))
}

#[test]
fn it_works() {
    let result = 2 + 2;
    assert_eq!(result, 4);
}

#[test]
fn too_small_frame_fails_and_drains() {
    // A declared size of 2 cannot even hold the 4-byte tag.
    let mut bytes = vec![0, 0, 0, 2];
    bytes.extend_from_slice(b"leftover bytes on the stream");
    let mut ps = stream_of(bytes);
    let mut stage = ClipboardStage::Idle;
    assert_eq!(ps.read(&mut stage), Err(PacketError::PacketTooSmall));
    // The remainder of the stream was consumed: the next read finds nothing.
    assert_eq!(ps.read(&mut stage), Err(PacketError::InsufficientDataError));
}

#[test]
fn oversized_frame_is_discarded_as_unknown() {
    let mut payload = vec![0u8; 2996];
    payload[0] = 7;
    let mut bytes = frame(b"XXXX", &payload);
    // A well-formed frame follows; decoding must stay frame-aligned.
    bytes.extend_from_slice(&frame(b"QINF", &[]));
    let mut ps = stream_of(bytes);
    let mut stage = ClipboardStage::Idle;
    assert_eq!(ps.read(&mut stage), Ok(Packet::Unknown(u32::from_be_bytes(*b"XXXX"))));
    assert_eq!(ps.read(&mut stage), Ok(Packet::QueryInfo));
}

#[test]
fn device_info_round_trip() {
    let packet = Packet::DeviceInfo { x: 1, y: 2, w: 1920, h: 1080, mx: 15, my: 25 };
    let mut out = MemStream::new(Vec::new());
    let mut ps = PacketStream::new(out);
    ps.write(packet.clone()).unwrap();
    // The encoder emits exactly the hand-built frame...
    let mut expected = Vec::new();
    expected.extend_from_slice(&18u32.to_be_bytes());
    expected.extend_from_slice(b"DINF");
    for v in [1u16, 2, 1920, 1080, 0, 15, 25] {
        expected.extend_from_slice(&v.to_be_bytes());
    }
    // ...and decoding that frame yields an equal packet.
    let mut back = stream_of(expected);
    let mut stage = ClipboardStage::Idle;
    assert_eq!(back.read(&mut stage), Ok(packet));
}

#[test]
fn keep_alive_and_query_info_encode() {
    let mut out = MemStream::new(Vec::new());
    Packet::KeepAlive.write_wire(&mut out).unwrap();
    Packet::QueryInfo.write_wire(&mut out).unwrap();
    Packet::MouseMoveAbs { x: 0x1234, y: 0x5678 }.write_wire(&mut out).unwrap();
    let mut expected = frame(b"CALV", &[]);
    expected.extend_from_slice(&frame(b"QINF", &[]));
    expected.extend_from_slice(&frame(b"DMMV", &[0x12, 0x34, 0x56, 0x78]));
    assert_eq!(out.into_written(), expected);
}

#[test]
fn decode_input_events() {
    let mut bytes = Vec::new();
    bytes.extend_from_slice(&frame(b"DKDN", &[0x00, 0x61, 0x20, 0x00, 0x00, 0x1E]));
    bytes.extend_from_slice(&frame(b"DKUP", &[0x00, 0x61, 0x20, 0x00, 0x00, 0x1E]));
    bytes.extend_from_slice(&frame(b"DKRP", &[0x00, 0x61, 0x00, 0x00, 0x00, 0x02, 0x00, 0x1E]));
    bytes.extend_from_slice(&frame(b"DMDN", &[0x01]));
    bytes.extend_from_slice(&frame(b"DMUP", &[0xFF]));
    bytes.extend_from_slice(&frame(b"DMWM", &[0x00, 0x78, 0xFF, 0x88]));
    bytes.extend_from_slice(&frame(b"DMMV", &[0x40, 0x00, 0x20, 0x00]));
    bytes.extend_from_slice(&frame(b"CINN", &[0, 5, 0, 6, 0, 0, 0, 9, 0, 3]));
    bytes.extend_from_slice(&frame(b"COUT", &[]));
    bytes.extend_from_slice(&frame(b"CCLP", &[2, 0, 0, 0, 7]));
    bytes.extend_from_slice(&frame(b"CALV", &[]));
    bytes.extend_from_slice(&frame(b"CIAK", &[]));
    bytes.extend_from_slice(&frame(b"CROP", &[]));
    bytes.extend_from_slice(&frame(b"EUNK", &[]));
    let mut ps = stream_of(bytes);
    let mut stage = ClipboardStage::Idle;
    assert_eq!(ps.read(&mut stage), Ok(Packet::KeyDown { id: 0x61, mask: 0x2000, button: 0x1E }));
    assert_eq!(ps.read(&mut stage), Ok(Packet::KeyUp { id: 0x61, mask: 0x2000, button: 0x1E }));
    assert_eq!(
        ps.read(&mut stage),
        Ok(Packet::KeyRepeat { id: 0x61, mask: 0, count: 2, button: 0x1E })
    );
    assert_eq!(ps.read(&mut stage), Ok(Packet::MouseDown { id: 1 }));
    assert_eq!(ps.read(&mut stage), Ok(Packet::MouseUp { id: -1 }));
    assert_eq!(ps.read(&mut stage), Ok(Packet::MouseWheel { x_delta: 120, y_delta: -120 }));
    assert_eq!(ps.read(&mut stage), Ok(Packet::MouseMoveAbs { x: 0x4000, y: 0x2000 }));
    assert_eq!(
        ps.read(&mut stage),
        Ok(Packet::CursorEnter { x: 5, y: 6, seq_num: 9, mask: 3 })
    );
    assert_eq!(ps.read(&mut stage), Ok(Packet::CursorLeave));
    assert_eq!(ps.read(&mut stage), Ok(Packet::GrabClipboard { id: 2, seq_num: 7 }));
    assert_eq!(ps.read(&mut stage), Ok(Packet::KeepAlive));
    assert_eq!(ps.read(&mut stage), Ok(Packet::InfoAck));
    assert_eq!(ps.read(&mut stage), Ok(Packet::ResetOptions));
    assert_eq!(ps.read(&mut stage), Ok(Packet::ErrorUnknownDevice));
}

#[test]
fn truncated_frame_is_insufficient_data() {
    // The frame declares 10 bytes but the stream ends after the tag.
    let bytes = vec![0, 0, 0, 10, b'D', b'K', b'D', b'N'];
    let mut ps = stream_of(bytes);
    let mut stage = ClipboardStage::Idle;
    assert_eq!(ps.read(&mut stage), Err(PacketError::InsufficientDataError));
}

#[test]
fn forward_compatible_extra_fields_are_discarded() {
    // A DMDN frame with trailing bytes a future server might add.
    let mut bytes = frame(b"DMDN", &[0x02, 0xAA, 0xBB, 0xCC]);
    bytes.extend_from_slice(&frame(b"COUT", &[]));
    let mut ps = stream_of(bytes);
    let mut stage = ClipboardStage::Idle;
    assert_eq!(ps.read(&mut stage), Ok(Packet::MouseDown { id: 2 }));
    assert_eq!(ps.read(&mut stage), Ok(Packet::CursorLeave));
}

#[test]
fn heartbeat_option_sets_interval() {
    // DSOP: 4 items = 2 pairs; an unknown key, then HBRT = 3000.
    let mut payload = Vec::new();
    payload.extend_from_slice(&4u32.to_be_bytes());
    payload.extend_from_slice(b"ZZZZ");
    payload.extend_from_slice(&42u32.to_be_bytes());
    payload.extend_from_slice(b"HBRT");
    payload.extend_from_slice(&3000u32.to_be_bytes());
    let mut ps = stream_of(frame(b"DSOP", &payload));
    let mut stage = ClipboardStage::Idle;
    assert_eq!(ps.read(&mut stage), Ok(Packet::SetDeviceOptions { heartbeat: 3000 }));
    // The effective read timeout is twice the heartbeat interval.
    assert_eq!(heartbeat_timeout_ms(3000), 6000);
}

#[test]
fn heartbeat_defaults_without_hbrt_key() {
    let mut payload = Vec::new();
    payload.extend_from_slice(&2u32.to_be_bytes());
    payload.extend_from_slice(b"ZZZZ");
    payload.extend_from_slice(&42u32.to_be_bytes());
    let mut ps = stream_of(frame(b"DSOP", &payload));
    let mut stage = ClipboardStage::Idle;
    assert_eq!(ps.read(&mut stage), Ok(Packet::SetDeviceOptions { heartbeat: 5000 }));
}

#[test]
fn mouse_scaling_matches_screen() {
    // Half of the 15-bit space lands mid-screen, within rounding-up.
    let x = scale_position(16384, 1920);
    let y = scale_position(16384, 1080);
    assert!(x == 960 || x == 961, "x was {x}");
    assert!(y == 540 || y == 541, "y was {y}");
    assert_eq!(scale_position(0, 1920), 0);
    assert_eq!(scale_position(32767, 1920), 1920);
    // Values beyond the 15-bit space are clamped, not wrapped.
    assert_eq!(scale_position(65535, 1920), 1920);
}

#[test]
fn session_decisions_per_packet() {
    let screen = (1920u16, 1080u16);
    // QueryInfo is answered with the device's screen information.
    assert_eq!(
        session_step(Packet::QueryInfo, screen),
        SessionAction::Reply(Packet::DeviceInfo { x: 0, y: 0, w: 1920, h: 1080, mx: 0, my: 0 })
    );
    // KeepAlive is echoed.
    assert_eq!(session_step(Packet::KeepAlive, screen), SessionAction::Reply(Packet::KeepAlive));
    // A heartbeat announcement installs twice the interval as the timeout.
    assert_eq!(
        session_step(Packet::SetDeviceOptions { heartbeat: 3000 }, screen),
        SessionAction::SetTimeout { timeout_ms: 6000, heartbeat: 3000 }
    );
    // An absolute move reaches the actuator scaled onto the screen.
    match session_step(Packet::MouseMoveAbs { x: 16384, y: 16384 }, screen) {
        SessionAction::Command(ActMsg::SetCursorPosition { x, y }) => {
            assert!(x == 960 || x == 961, "x was {x}");
            assert!(y == 540 || y == 541, "y was {y}");
        }
        other => panic!("unexpected action {other:?}"),
    }
    // Key events become the matching commands; unknown tags do nothing.
    assert_eq!(
        session_step(Packet::KeyDown { id: 1, mask: 2, button: 3 }, screen),
        SessionAction::Command(ActMsg::KeyDown { key: 1, mask: 2, button: 3 })
    );
    assert_eq!(session_step(Packet::Unknown(77), screen), SessionAction::Ignore);
}

fn server_greeting() -> Vec<u8> {
    let mut bytes = Vec::new();
    bytes.extend_from_slice(&11u32.to_be_bytes());
    bytes.extend_from_slice(b"Barrier");
    bytes.extend_from_slice(&1u16.to_be_bytes());
    bytes.extend_from_slice(&6u16.to_be_bytes());
    bytes
}

#[test]
fn handshake_answers_greeting() {
    let mut stream = MemStream::new(server_greeting());
    handshake(&mut stream, b"screen").unwrap();
    let written = stream.into_written();
    let mut expected = Vec::new();
    expected.extend_from_slice(&21u32.to_be_bytes());
    expected.extend_from_slice(b"Barrier");
    expected.extend_from_slice(&1u16.to_be_bytes());
    expected.extend_from_slice(&6u16.to_be_bytes());
    expected.extend_from_slice(&6u32.to_be_bytes());
    expected.extend_from_slice(b"screen");
    assert_eq!(written, expected);
}

#[test]
fn handshake_rejects_wrong_magic() {
    let mut bytes = Vec::new();
    bytes.extend_from_slice(&11u32.to_be_bytes());
    bytes.extend_from_slice(b"Synergy");
    bytes.extend_from_slice(&1u16.to_be_bytes());
    bytes.extend_from_slice(&6u16.to_be_bytes());
    let mut stream = MemStream::new(bytes);
    assert_eq!(
        handshake(&mut stream, b"screen"),
        Err(ConnectionError::ProtocolError(PacketError::FormatError))
    );
}

struct CountingActuator {
    events: Vec<&'static str>,
}

impl Actuator for CountingActuator {
    fn connected(&mut self) {
        self.events.push("connected");
    }
    fn disconnected(&mut self) {
        self.events.push("disconnected");
    }
    fn get_screen_size(&self) -> (u16, u16) {
        (1920, 1080)
    }
    fn get_cursor_position(&self) -> (u16, u16) {
        (0, 0)
    }
    fn set_cursor_position(&mut self, _x: u16, _y: u16) {
        self.events.push("set_cursor");
    }
    fn move_cursor(&mut self, _x: i16, _y: i16) {}
    fn mouse_down(&mut self, _button: i8) {
        self.events.push("mouse_down");
    }
    fn mouse_up(&mut self, _button: i8) {}
    fn mouse_wheel(&mut self, _x: i16, _y: i16) {}
    fn key_down(&mut self, _key: u16, _mask: u16, _button: u16) {
        self.events.push("key_down");
    }
    fn key_repeat(&mut self, _key: u16, _mask: u16, _button: u16, _count: u16) {}
    fn key_up(&mut self, _key: u16, _mask: u16, _button: u16) {
        self.events.push("key_up");
    }
    fn set_clipboard(&mut self, _data: Vec<u8>) {
        self.events.push("set_clipboard");
    }
    fn set_options(&mut self, _heartbeat: u32) {
        self.events.push("set_options");
    }
    fn reset_options(&mut self) {}
    fn enter(&mut self) {
        self.events.push("enter");
    }
    fn leave(&mut self) {
        self.events.push("leave");
    }
    fn hid_key_down(&mut self, _key: u8) {}
    fn hid_key_up(&mut self, _key: u8) {}
}

#[test]
fn session_runs_until_the_stream_ends() {
    let mut bytes = server_greeting();
    bytes.extend_from_slice(&frame(b"CINN", &[0, 5, 0, 6, 0, 0, 0, 9, 0, 3]));
    bytes.extend_from_slice(&frame(b"DKDN", &[0x00, 0x61, 0x00, 0x00, 0x00, 0x1E]));
    bytes.extend_from_slice(&frame(b"DKUP", &[0x00, 0x61, 0x00, 0x00, 0x00, 0x1E]));
    bytes.extend_from_slice(&frame(b"DMMV", &[0x40, 0x00, 0x20, 0x00]));
    bytes.extend_from_slice(&frame(b"COUT", &[]));
    let stream = MemStream::new(bytes);
    let mut actor = CountingActuator { events: Vec::new() };
    let mut state = SessionState::Connecting;
    let r = start(stream, b"screen", &mut actor, &mut state);
    assert_eq!(r, Err(ConnectionError::ProtocolError(PacketError::InsufficientDataError)));
    assert_eq!(
        state,
        SessionState::Closed(ConnectionError::ProtocolError(PacketError::InsufficientDataError))
    );
    assert_eq!(
        actor.events,
        vec!["connected", "enter", "key_down", "key_up", "set_cursor", "leave", "disconnected"]
    );
}
