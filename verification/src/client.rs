//! The connection/session layer: clipboard transfer staging, coordinate
//! scaling, heartbeat policy, handshake and the receive loop.

use vstd::prelude::*;

use crate::actuator::Actuator;
use crate::error::{ConnectionError, PacketError};
use crate::packet::Packet;
use crate::packet_io::{PacketReader, PacketWriter, StreamModel};
use crate::packet_stream::{PacketStream, ReadTimeout};
use crate::thread_act::{dispatch_msg, ActMsg};
use crate::wire::{be16_bytes, be32_bytes};

verus! {

broadcast use vstd::seq_lib::lemma_seq_skip_of_skip;

/// The four moments of one connection attempt.
#[derive(Debug, Clone, Copy, PartialEq, Eq, Structural)]
pub enum SessionState {
    /// The socket is being opened.
    Connecting,
    /// The greetings are being exchanged.
    Handshaking,
    /// Frames are decoded and dispatched, under this read timeout.
    Active { heartbeat_timeout_ms: u64 },
    /// The attempt ended for this reason; it is not retried here.
    Closed(ConnectionError),
}

/// The read timeout while the heartbeat interval is still unnegotiated.
pub const INITIAL_TIMEOUT_MS: u64 = 10000;

/// The read timeout for an announced heartbeat interval: twice the
/// interval, so an idle but live peer is never cut while a dead one is.
pub fn heartbeat_timeout_ms(heartbeat: u32) -> (r: u64)
    ensures
        r == 2 * heartbeat,
{
    heartbeat as u64 * 2
}

/// Maps a wire coordinate out of the normalized 15-bit space onto a screen
/// of `dim` pixels, rounding up; a value beyond the 15-bit space is clamped
/// to its top first.
pub open spec fn spec_scale_position(v: int, dim: int) -> int {
    let c = if v > 0x7fff {
        0x7fff as int
    } else {
        v
    };
    (c * dim + 0x7ffe) / 0x7fff
}

/// Scales one wire coordinate to the device's screen.
pub fn scale_position(v: u16, dim: u16) -> (r: u16)
    ensures
        r == spec_scale_position(v as int, dim as int),
{
    let c: u64 = if v > 0x7fff {
        0x7fff
    } else {
        v as u64
    };
    proof {
        assert(c * dim <= 0x7fff * 0x10000) by (nonlinear_arith)
            requires
                c <= 0x7fff,
                dim <= 0x10000,
        ;
    }
    let scaled: u64 = (c * dim as u64 + 0x7ffe) / 0x7fff;
    proof {
        assert((c * (dim as u64) + 0x7ffe) / 0x7fff <= dim as u64) by (nonlinear_arith)
            requires
                c <= 0x7fff,
        ;
    }
    scaled as u16
}

/// The protocol's magic, the ASCII bytes of "Barrier".
pub open spec fn barrier_magic() -> Seq<u8> {
    seq![0x42u8, 0x61u8, 0x72u8, 0x72u8, 0x69u8, 0x65u8, 0x72u8]
}

/// The greeting the client answers the server's with: a size field, the
/// magic, protocol version 1.6, then the length-prefixed device name.
pub open spec fn greeting_bytes(name: Seq<u8>) -> Seq<u8> {
    be32_bytes((15 + name.len()) as u32) + barrier_magic() + be16_bytes(1) + be16_bytes(6)
        + be32_bytes(name.len() as u32) + name
}

/// Reads and validates the server's greeting — magic plus two version
/// fields — and answers with the client's. A wrong magic is a
/// `ProtocolError`; on success exactly the greeting bytes were written.
pub fn handshake<S: PacketReader + PacketWriter>(stream: &mut S, device_name: &[u8]) -> (r: Result<
    (),
    ConnectionError,
>)
    requires
        // the greeting must fit its frame's size field, and the device has
        // only a few kilobytes to spare for the announced name
        device_name@.len() <= 1000,
    ensures
        match r {
            Ok(_) => {
                let p = old(stream).pending();
                &&& p.len() >= 15
                &&& p.skip(4).take(7) == barrier_magic()
                &&& final(stream).pending() == p.skip(15)
                &&& final(stream).written() == old(stream).written() + greeting_bytes(
                    device_name@,
                )
            },
            Err(_) => true,
        },
{
    let magic: Vec<u8> = vec![0x42u8, 0x61u8, 0x72u8, 0x72u8, 0x69u8, 0x65u8, 0x72u8];
    proof {
        assert(magic@ =~= barrier_magic());
    }
    let _size = match stream.read_packet_size() {
        Ok(v) => v,
        Err(e) => {
            return Err(ConnectionError::ProtocolError(e));
        },
    };
    match stream.read_str_lit(magic.as_slice()) {
        Ok(_) => (),
        Err(e) => {
            return Err(ConnectionError::ProtocolError(e));
        },
    };
    let _major = match stream.read_u16() {
        Ok(v) => v,
        Err(e) => {
            return Err(ConnectionError::ProtocolError(e));
        },
    };
    let _minor = match stream.read_u16() {
        Ok(v) => v,
        Err(e) => {
            return Err(ConnectionError::ProtocolError(e));
        },
    };
    let size: u32 = 15 + device_name.len() as u32;
    match stream.write_u32(size) {
        Ok(_) => (),
        Err(e) => {
            return Err(ConnectionError::ProtocolError(e));
        },
    };
    match stream.write_all_bytes(magic.as_slice()) {
        Ok(_) => (),
        Err(e) => {
            return Err(ConnectionError::ProtocolError(e));
        },
    };
    match stream.write_u16(1) {
        Ok(_) => (),
        Err(e) => {
            return Err(ConnectionError::ProtocolError(e));
        },
    };
    match stream.write_u16(6) {
        Ok(_) => (),
        Err(e) => {
            return Err(ConnectionError::ProtocolError(e));
        },
    };
    match stream.write_str(device_name) {
        Ok(_) => (),
        Err(e) => {
            return Err(ConnectionError::ProtocolError(e));
        },
    };
    proof {
        assert(stream.written() =~= old(stream).written() + greeting_bytes(device_name@));
    }
    Ok(())
}

/// Where a multi-frame clipboard transfer stands. A transfer is announced by
/// a `mark = 1` frame, carries data in `mark = 2` frames and ends with a
/// `mark = 3` frame; only the first data frame is decoded.
#[derive(Debug, Clone, Copy, PartialEq, Eq, Structural)]
pub enum ClipboardStage {
    /// No transfer in progress.
    Idle,
    /// The length header arrived.
    SawMark1,
    /// Inside the data frames; the payload counts them from zero.
    ReceivingMark2(usize),
    /// The terminator arrived.
    Done,
}

/// The stage transition for one clipboard frame with the given mark; any
/// sequencing anomaly abandons the transfer and returns to `Idle`.
pub open spec fn stage_step(stage: ClipboardStage, mark: u8) -> ClipboardStage {
    if mark == 1 {
        match stage {
            ClipboardStage::Idle | ClipboardStage::Done => ClipboardStage::SawMark1,
            _ => ClipboardStage::Idle,
        }
    } else if mark == 2 {
        match stage {
            ClipboardStage::SawMark1 => ClipboardStage::ReceivingMark2(0),
            ClipboardStage::ReceivingMark2(idx) => ClipboardStage::ReceivingMark2(
                if idx < usize::MAX {
                    (idx + 1) as usize
                } else {
                    idx
                },
            ),
            _ => ClipboardStage::Idle,
        }
    } else if mark == 3 {
        match stage {
            ClipboardStage::ReceivingMark2(_) => ClipboardStage::Done,
            _ => ClipboardStage::Idle,
        }
    } else {
        ClipboardStage::Idle
    }
}

/// What the session does with one decoded packet.
#[derive(Debug, Clone, PartialEq, Eq)]
pub enum SessionAction {
    /// Answer the server with this packet.
    Reply(Packet),
    /// Drive the actuator with this command.
    Command(ActMsg),
    /// Retune the read timeout and announce the heartbeat to the actuator.
    SetTimeout { timeout_ms: u64, heartbeat: u32 },
    /// Nothing to do for this packet.
    Ignore,
}

/// The session's decision for one decoded packet on a screen of the given
/// size: which reply is owed, which actuator command the packet becomes,
/// or which read timeout a heartbeat announcement installs.
pub open spec fn spec_session_step(packet: Packet, screen: (u16, u16)) -> SessionAction {
    match packet {
        Packet::QueryInfo => SessionAction::Reply(
            Packet::DeviceInfo { x: 0, y: 0, w: screen.0, h: screen.1, mx: 0, my: 0 },
        ),
        Packet::KeepAlive => SessionAction::Reply(Packet::KeepAlive),
        Packet::MouseMoveAbs { x, y } => SessionAction::Command(
            ActMsg::SetCursorPosition {
                x: spec_scale_position(x as int, screen.0 as int) as u16,
                y: spec_scale_position(y as int, screen.1 as int) as u16,
            },
        ),
        Packet::KeyDown { id, mask, button } => SessionAction::Command(
            ActMsg::KeyDown { key: id, mask, button },
        ),
        Packet::KeyUp { id, mask, button } => SessionAction::Command(
            ActMsg::KeyUp { key: id, mask, button },
        ),
        Packet::KeyRepeat { id, mask, button, count } => SessionAction::Command(
            ActMsg::KeyRepeat { key: id, mask, button, count },
        ),
        Packet::MouseDown { id } => SessionAction::Command(ActMsg::MouseDown { button: id }),
        Packet::MouseUp { id } => SessionAction::Command(ActMsg::MouseUp { button: id }),
        Packet::MouseWheel { x_delta, y_delta } => SessionAction::Command(
            ActMsg::MouseWheel { x: x_delta, y: y_delta },
        ),
        Packet::ResetOptions => SessionAction::Command(ActMsg::ResetOptions),
        Packet::SetDeviceOptions { heartbeat } => SessionAction::SetTimeout {
            timeout_ms: (2 * heartbeat) as u64,
            heartbeat,
        },
        Packet::CursorEnter { .. } => SessionAction::Command(ActMsg::Enter),
        Packet::CursorLeave => SessionAction::Command(ActMsg::Leave),
        Packet::SetClipboard { data: Some(d), .. } => SessionAction::Command(
            ActMsg::SetClipboard { data: d },
        ),
        Packet::SetClipboard { data: None, .. } => SessionAction::Ignore,
        Packet::GrabClipboard { .. } => SessionAction::Ignore,
        Packet::InfoAck => SessionAction::Ignore,
        Packet::DeviceInfo { .. } => SessionAction::Ignore,
        Packet::ErrorUnknownDevice => SessionAction::Ignore,
        Packet::ClientNoOp => SessionAction::Ignore,
        Packet::Unknown(_) => SessionAction::Ignore,
    }
}

/// A reply the session owes is always one it can encode.
pub proof fn lemma_session_reply_encodable(packet: Packet, screen: (u16, u16))
    ensures
        spec_session_step(packet, screen) matches SessionAction::Reply(p) ==> p.encodable(),
{
}

/// Decides what one decoded packet means for the session, exactly as
/// `spec_session_step` says.
pub fn session_step(packet: Packet, screen: (u16, u16)) -> (r: SessionAction)
    ensures
        r == spec_session_step(packet, screen),
{
    match packet {
        Packet::QueryInfo => SessionAction::Reply(
            Packet::DeviceInfo { x: 0, y: 0, w: screen.0, h: screen.1, mx: 0, my: 0 },
        ),
        Packet::KeepAlive => SessionAction::Reply(Packet::KeepAlive),
        Packet::MouseMoveAbs { x, y } => SessionAction::Command(
            ActMsg::SetCursorPosition {
                x: scale_position(x, screen.0),
                y: scale_position(y, screen.1),
            },
        ),
        Packet::KeyDown { id, mask, button } => SessionAction::Command(
            ActMsg::KeyDown { key: id, mask, button },
        ),
        Packet::KeyUp { id, mask, button } => SessionAction::Command(
            ActMsg::KeyUp { key: id, mask, button },
        ),
        Packet::KeyRepeat { id, mask, button, count } => SessionAction::Command(
            ActMsg::KeyRepeat { key: id, mask, button, count },
        ),
        Packet::MouseDown { id } => SessionAction::Command(ActMsg::MouseDown { button: id }),
        Packet::MouseUp { id } => SessionAction::Command(ActMsg::MouseUp { button: id }),
        Packet::MouseWheel { x_delta, y_delta } => SessionAction::Command(
            ActMsg::MouseWheel { x: x_delta, y: y_delta },
        ),
        Packet::ResetOptions => SessionAction::Command(ActMsg::ResetOptions),
        Packet::SetDeviceOptions { heartbeat } => SessionAction::SetTimeout {
            timeout_ms: heartbeat_timeout_ms(heartbeat),
            heartbeat,
        },
        Packet::CursorEnter { .. } => SessionAction::Command(ActMsg::Enter),
        Packet::CursorLeave => SessionAction::Command(ActMsg::Leave),
        Packet::SetClipboard { data, .. } => {
            match data {
                Some(d) => SessionAction::Command(ActMsg::SetClipboard { data: d }),
                None => SessionAction::Ignore,
            }
        },
        Packet::GrabClipboard { .. } => SessionAction::Ignore,
        Packet::InfoAck => SessionAction::Ignore,
        Packet::DeviceInfo { .. } => SessionAction::Ignore,
        Packet::ErrorUnknownDevice => SessionAction::Ignore,
        Packet::ClientNoOp => SessionAction::Ignore,
        Packet::Unknown(_) => SessionAction::Ignore,
    }
}

/// Runs one connection attempt over an already-open transport: the
/// handshake, then the receive loop, decoding one frame at a time and
/// acting on each packet exactly as `spec_session_step` decides — replies
/// are written through the verified encoder, commands reach the actuator
/// through `dispatch_msg`, a heartbeat announcement retunes the read
/// timeout to twice the interval. One attempt, once closed, is never
/// retried here: retry policy belongs to the caller, who hands in a fresh
/// transport each time.
pub fn start<A: Actuator, S: PacketReader + PacketWriter + ReadTimeout>(
    stream: S,
    device_name: &[u8],
    actor: &mut A,
    state: &mut SessionState,
) -> (r: Result<(), ConnectionError>)
    requires
        // the greeting must fit its frame's size field, and the device has
        // only a few kilobytes to spare for the announced name
        device_name@.len() <= 1000,
    ensures
        r is Err,
        match r {
            Err(e) => *final(state) == SessionState::Closed(e),
            Ok(_) => false,
        },
{
    let mut stream = stream;
    *state = SessionState::Handshaking;
    let _ = stream.set_read_timeout(Some(INITIAL_TIMEOUT_MS));
    let screen_size = actor.get_screen_size();
    match handshake(&mut stream, device_name) {
        Ok(_) => (),
        Err(e) => {
            *state = SessionState::Closed(e);
            return Err(e);
        },
    };
    actor.connected();
    *state = SessionState::Active { heartbeat_timeout_ms: INITIAL_TIMEOUT_MS };
    let mut clipboard_stage = ClipboardStage::Idle;
    let mut packet_stream = PacketStream::new(stream);
    loop
        decreases packet_stream.pending().len(),
    {
        let packet = match packet_stream.read(&mut clipboard_stage) {
            Ok(p) => p,
            Err(e) => {
                actor.disconnected();
                let err = ConnectionError::ProtocolError(e);
                *state = SessionState::Closed(err);
                return Err(err);
            },
        };
        let ghost packet_g = packet;
        match session_step(packet, screen_size) {
            SessionAction::Reply(reply) => {
                proof {
                    lemma_session_reply_encodable(packet_g, screen_size);
                }
                match packet_stream.write(reply) {
                    Ok(_) => (),
                    Err(e) => {
                        actor.disconnected();
                        let err = ConnectionError::ProtocolError(e);
                        *state = SessionState::Closed(err);
                        return Err(err);
                    },
                }
            },
            SessionAction::Command(cmd) => {
                dispatch_msg(actor, cmd);
            },
            SessionAction::SetTimeout { timeout_ms, heartbeat } => {
                let _ = packet_stream.set_read_timeout(Some(timeout_ms));
                *state = SessionState::Active { heartbeat_timeout_ms: timeout_ms };
                actor.set_options(heartbeat);
            },
            SessionAction::Ignore => {},
        }
    }
}

/// Advances the stage for one clipboard frame.
pub fn advance_stage(stage: &mut ClipboardStage, mark: u8)
    ensures
        *final(stage) == stage_step(*old(stage), mark),
{
    *stage = if mark == 1 {
        match *stage {
            ClipboardStage::Idle | ClipboardStage::Done => ClipboardStage::SawMark1,
            _ => ClipboardStage::Idle,
        }
    } else if mark == 2 {
        match *stage {
            ClipboardStage::SawMark1 => ClipboardStage::ReceivingMark2(0),
            ClipboardStage::ReceivingMark2(idx) => ClipboardStage::ReceivingMark2(
                if idx < usize::MAX {
                    idx + 1
                } else {
                    idx
                },
            ),
            _ => ClipboardStage::Idle,
        }
    } else if mark == 3 {
        match *stage {
            ClipboardStage::ReceivingMark2(_) => ClipboardStage::Done,
            _ => ClipboardStage::Idle,
        }
    } else {
        ClipboardStage::Idle
    };
}

} // verus!
