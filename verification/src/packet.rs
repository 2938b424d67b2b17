//! The closed set of protocol messages, and the encoder for the outbound ones.
//!
//! Every frame on the wire is `u32 size | 4-byte tag | payload[size - 4]`,
//! all integers big-endian. `frame_bytes` is the mathematical frame an
//! outbound packet stands for; `write_wire` is proved to emit exactly it.

use vstd::prelude::*;

use crate::error::PacketError;
use crate::packet_io::PacketWriter;
use crate::wire::{be16_bytes, be32_bytes};

verus! {

/// "QINF": the server asks for the device's screen information.
pub const TAG_QINF: u32 = 0x51494E46;

/// "DINF": the client reports its screen information.
pub const TAG_DINF: u32 = 0x44494E46;

/// "CIAK": the client acknowledges the server's information grab.
pub const TAG_CIAK: u32 = 0x4349414B;

/// "CALV": the keep-alive heartbeat, echoed by the client.
pub const TAG_CALV: u32 = 0x43414C56;

/// "CROP": the server resets the client options.
pub const TAG_CROP: u32 = 0x43524F50;

/// "CNOP": the client has nothing to say.
pub const TAG_CNOP: u32 = 0x434E4F50;

/// "DSOP": the server sets device options, among them the heartbeat interval.
pub const TAG_DSOP: u32 = 0x44534F50;

/// "EUNK": the server does not know this device.
pub const TAG_EUNK: u32 = 0x45554E4B;

/// "DMMV": an absolute mouse move.
pub const TAG_DMMV: u32 = 0x444D4D56;

/// "CINN": the cursor enters this screen.
pub const TAG_CINN: u32 = 0x43494E4E;

/// "COUT": the cursor leaves this screen.
pub const TAG_COUT: u32 = 0x434F5554;

/// "CCLP": the server grabs the clipboard.
pub const TAG_CCLP: u32 = 0x43434C50;

/// "DCLP": one chunk of a clipboard transfer.
pub const TAG_DCLP: u32 = 0x44434C50;

/// "DMUP": a mouse button is released.
pub const TAG_DMUP: u32 = 0x444D5550;

/// "DMDN": a mouse button is pressed.
pub const TAG_DMDN: u32 = 0x444D444E;

/// "DKUP": a key is released.
pub const TAG_DKUP: u32 = 0x444B5550;

/// "DKDN": a key is pressed.
pub const TAG_DKDN: u32 = 0x444B444E;

/// "DKRP": a key repeats.
pub const TAG_DKRP: u32 = 0x444B5250;

/// "DMWM": the mouse wheel moves.
pub const TAG_DMWM: u32 = 0x444D574D;

/// "HBRT": the option key carrying the heartbeat interval.
pub const TAG_HBRT: u32 = 0x48425254;

/// One decoded protocol message. Exactly one consumed frame corresponds to
/// each decoded packet; unrecognized tags land in `Unknown` with their frame
/// body fully discarded.
#[derive(Debug, Clone, PartialEq, Eq)]
pub enum Packet {
    QueryInfo,
    DeviceInfo { x: u16, y: u16, w: u16, h: u16, mx: u16, my: u16 },
    InfoAck,
    KeepAlive,
    ResetOptions,
    ClientNoOp,
    SetDeviceOptions { heartbeat: u32 },
    ErrorUnknownDevice,
    GrabClipboard { id: u8, seq_num: u32 },
    SetClipboard { id: u8, seq_num: u32, mark: u8, data: Option<Vec<u8>> },
    CursorEnter { x: u16, y: u16, seq_num: u32, mask: u16 },
    MouseUp { id: i8 },
    MouseDown { id: i8 },
    KeyUp { id: u16, mask: u16, button: u16 },
    KeyDown { id: u16, mask: u16, button: u16 },
    KeyRepeat { id: u16, mask: u16, button: u16, count: u16 },
    MouseWheel { x_delta: i16, y_delta: i16 },
    CursorLeave,
    MouseMoveAbs { x: u16, y: u16 },
    /// A tag this client does not interpret, kept as its big-endian value.
    Unknown(u32),
}

impl Packet {
    /// Whether this variant travels from client to server; only those can be
    /// encoded, handing an inbound-only packet to the encoder is a
    /// programming error.
    pub open spec fn encodable(self) -> bool {
        match self {
            Packet::QueryInfo => true,
            Packet::DeviceInfo { .. } => true,
            Packet::ClientNoOp => true,
            Packet::InfoAck => true,
            Packet::KeepAlive => true,
            Packet::ErrorUnknownDevice => true,
            Packet::MouseMoveAbs { .. } => true,
            _ => false,
        }
    }

    /// The complete length-prefixed frame this packet stands for.
    pub open spec fn frame_bytes(self) -> Seq<u8>
        recommends
            self.encodable(),
    {
        match self {
            Packet::QueryInfo => be32_bytes(4) + be32_bytes(TAG_QINF),
            Packet::ClientNoOp => be32_bytes(4) + be32_bytes(TAG_CNOP),
            Packet::InfoAck => be32_bytes(4) + be32_bytes(TAG_CIAK),
            Packet::KeepAlive => be32_bytes(4) + be32_bytes(TAG_CALV),
            Packet::ErrorUnknownDevice => be32_bytes(4) + be32_bytes(TAG_EUNK),
            Packet::DeviceInfo { x, y, w, h, mx, my } => be32_bytes(18) + be32_bytes(TAG_DINF)
                + be16_bytes(x) + be16_bytes(y) + be16_bytes(w) + be16_bytes(h) + be16_bytes(0)
                + be16_bytes(mx) + be16_bytes(my),
            Packet::MouseMoveAbs { x, y } => be32_bytes(8) + be32_bytes(TAG_DMMV) + be16_bytes(x)
                + be16_bytes(y),
            _ => Seq::<u8>::empty(),
        }
    }

    /// Writes the length-prefixed frame for this outbound packet.
    pub fn write_wire<W: PacketWriter>(&self, out: &mut W) -> (r: Result<(), PacketError>)
        requires
            self.encodable(),
        ensures
            final(out).pending() == old(out).pending(),
            match r {
                Ok(_) => final(out).written() == old(out).written() + self.frame_bytes(),
                Err(_) => true,
            },
    {
        match self {
            Packet::QueryInfo => {
                out.write_u32(4)?;
                out.write_u32(TAG_QINF)?;
            },
            Packet::ClientNoOp => {
                out.write_u32(4)?;
                out.write_u32(TAG_CNOP)?;
            },
            Packet::InfoAck => {
                out.write_u32(4)?;
                out.write_u32(TAG_CIAK)?;
            },
            Packet::KeepAlive => {
                out.write_u32(4)?;
                out.write_u32(TAG_CALV)?;
            },
            Packet::ErrorUnknownDevice => {
                out.write_u32(4)?;
                out.write_u32(TAG_EUNK)?;
            },
            Packet::DeviceInfo { x, y, w, h, mx, my } => {
                out.write_u32(18)?;
                out.write_u32(TAG_DINF)?;
                out.write_u16(*x)?;
                out.write_u16(*y)?;
                out.write_u16(*w)?;
                out.write_u16(*h)?;
                out.write_u16(0)?;
                out.write_u16(*mx)?;
                out.write_u16(*my)?;
            },
            Packet::MouseMoveAbs { x, y } => {
                out.write_u32(8)?;
                out.write_u32(TAG_DMMV)?;
                out.write_u16(*x)?;
                out.write_u16(*y)?;
            },
            _ => {
                return Err(PacketError::FormatError);
            },
        }
        proof {
            assert(out.written() =~= old(out).written() + self.frame_bytes());
        }
        Ok(())
    }
}

} // verus!
