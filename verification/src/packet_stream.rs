//! Framed decoding and encoding over a byte stream.
//!
//! `read` consumes exactly one frame — `u32 size | 4-byte tag | payload` —
//! and returns the packet that frame stands for, as pinned down by
//! `decoded_packet_ok`. A declared size below 4 cannot even hold the tag and
//! is answered with `PacketTooSmall` after draining the stream; a size above
//! `MAX_FRAME` is answered with `Unknown` after discarding the body, so no
//! hostile length ever grows a buffer. Whatever the tag, no byte of the
//! frame is left unread.

use vstd::prelude::*;

use crate::client::{stage_step, ClipboardStage};
use crate::clipboard::{clipboard_outcome, parse_clipboard};
use crate::error::PacketError;
use crate::packet::{Packet, TAG_QINF, TAG_DINF, TAG_CIAK, TAG_CALV, TAG_CROP, TAG_DSOP, TAG_EUNK,
    TAG_DMMV, TAG_CINN, TAG_COUT, TAG_CCLP, TAG_DCLP, TAG_DMUP, TAG_DMDN, TAG_DKUP, TAG_DKDN,
    TAG_DKRP, TAG_DMWM, TAG_HBRT};
use crate::packet_io::{MemReader, MemWriter, PacketReader, PacketWriter, StreamModel};
use crate::take::Take;
use crate::wire::{be16_of, be32_of, signed8, signed16};

verus! {

broadcast use vstd::seq_lib::lemma_seq_skip_of_skip;

/// Frames whose declared size exceeds this are discarded undecoded.
pub const MAX_FRAME: u32 = 2048;

/// The heartbeat interval assumed until the server announces one.
pub const DEFAULT_HEARTBEAT_MS: u32 = 5000;

/// Scans `n` option pairs (4-byte key, 4-byte value) for the last `HBRT`
/// value; `acc` is the interval seen so far.
pub open spec fn heartbeat_scan(opts: Seq<u8>, n: int, acc: int) -> int
    decreases n,
{
    if n <= 0 {
        acc
    } else {
        heartbeat_scan(
            opts.skip(8),
            n - 1,
            if be32_of(opts) == TAG_HBRT {
                be32_of(opts.skip(4))
            } else {
                acc
            },
        )
    }
}

/// The scan only looks at the first `8 * n` bytes of the options.
pub proof fn lemma_heartbeat_scan_prefix(a: Seq<u8>, b: Seq<u8>, n: int, acc: int)
    requires
        0 <= n,
        8 * n <= a.len(),
        8 * n <= b.len(),
        a.take(8 * n) == b.take(8 * n),
    ensures
        heartbeat_scan(a, n, acc) == heartbeat_scan(b, n, acc),
    decreases n,
{
    if n > 0 {
        assert forall|j: int| 0 <= j < 8 * n implies a[j] == b[j] by {
            assert(a[j] == a.take(8 * n)[j]);
            assert(b[j] == b.take(8 * n)[j]);
        }
        assert(be32_of(a) == be32_of(b));
        assert(be32_of(a.skip(4)) == be32_of(b.skip(4)));
        assert(a.skip(8).take(8 * (n - 1)) =~= b.skip(8).take(8 * (n - 1)));
        lemma_heartbeat_scan_prefix(
            a.skip(8),
            b.skip(8),
            n - 1,
            if be32_of(a) == TAG_HBRT {
                be32_of(a.skip(4))
            } else {
                acc
            },
        );
    }
}

/// The packet a frame body decodes to, for every tag but `DCLP`.
/// `body` holds the `size - 4` payload bytes after the tag.
pub open spec fn decode_fields(tag: u32, body: Seq<u8>) -> Packet {
    if tag == TAG_QINF {
        Packet::QueryInfo
    } else if tag == TAG_CIAK {
        Packet::InfoAck
    } else if tag == TAG_CALV {
        Packet::KeepAlive
    } else if tag == TAG_CROP {
        Packet::ResetOptions
    } else if tag == TAG_EUNK {
        Packet::ErrorUnknownDevice
    } else if tag == TAG_COUT {
        Packet::CursorLeave
    } else if tag == TAG_DSOP {
        Packet::SetDeviceOptions {
            heartbeat: heartbeat_scan(
                body.skip(4),
                be32_of(body) / 2,
                DEFAULT_HEARTBEAT_MS as int,
            ) as u32,
        }
    } else if tag == TAG_DMMV {
        Packet::MouseMoveAbs { x: be16_of(body) as u16, y: be16_of(body.skip(2)) as u16 }
    } else if tag == TAG_CINN {
        Packet::CursorEnter {
            x: be16_of(body) as u16,
            y: be16_of(body.skip(2)) as u16,
            seq_num: be32_of(body.skip(4)) as u32,
            mask: be16_of(body.skip(8)) as u16,
        }
    } else if tag == TAG_CCLP {
        Packet::GrabClipboard { id: body[0], seq_num: be32_of(body.skip(1)) as u32 }
    } else if tag == TAG_DMUP {
        Packet::MouseUp { id: signed8(body[0] as int) as i8 }
    } else if tag == TAG_DMDN {
        Packet::MouseDown { id: signed8(body[0] as int) as i8 }
    } else if tag == TAG_DKUP {
        Packet::KeyUp {
            id: be16_of(body) as u16,
            mask: be16_of(body.skip(2)) as u16,
            button: be16_of(body.skip(4)) as u16,
        }
    } else if tag == TAG_DKDN {
        Packet::KeyDown {
            id: be16_of(body) as u16,
            mask: be16_of(body.skip(2)) as u16,
            button: be16_of(body.skip(4)) as u16,
        }
    } else if tag == TAG_DKRP {
        Packet::KeyRepeat {
            id: be16_of(body) as u16,
            mask: be16_of(body.skip(2)) as u16,
            count: be16_of(body.skip(4)) as u16,
            button: be16_of(body.skip(6)) as u16,
        }
    } else if tag == TAG_DMWM {
        Packet::MouseWheel {
            x_delta: signed16(be16_of(body)) as i16,
            y_delta: signed16(be16_of(body.skip(2))) as i16,
        }
    } else if tag == TAG_DINF {
        Packet::DeviceInfo {
            x: be16_of(body) as u16,
            y: be16_of(body.skip(2)) as u16,
            w: be16_of(body.skip(4)) as u16,
            h: be16_of(body.skip(6)) as u16,
            mx: be16_of(body.skip(10)) as u16,
            my: be16_of(body.skip(12)) as u16,
        }
    } else {
        Packet::Unknown(tag)
    }
}

/// The payload view of a decoded clipboard field.
pub open spec fn data_view(d: Option<Vec<u8>>) -> Option<Seq<u8>> {
    match d {
        Some(v) => Some(v@),
        None => None,
    }
}

/// The clipboard data a `DCLP` frame yields: only the first data frame of a
/// transfer is decoded, every other one is consumed and dropped.
pub open spec fn spec_clip_data(st: ClipboardStage, block: Seq<u8>) -> Option<Seq<u8>> {
    if st == ClipboardStage::ReceivingMark2(0usize) {
        clipboard_outcome(block)
    } else {
        None
    }
}

/// What one frame at the front of `pend` decodes to, given the clipboard
/// stage the connection was in.
pub open spec fn decoded_packet_ok(p: Packet, pend: Seq<u8>, stage0: ClipboardStage) -> bool {
    let size = be32_of(pend);
    let tag = be32_of(pend.skip(4)) as u32;
    let body = pend.skip(8).take(size - 4);
    if size > MAX_FRAME {
        p == Packet::Unknown(tag)
    } else if tag == TAG_DCLP {
        match p {
            Packet::SetClipboard { id, seq_num, mark, data } => {
                &&& id == body[0]
                &&& seq_num == be32_of(body.skip(1))
                &&& mark == body[5]
                &&& data_view(data) == spec_clip_data(stage_step(stage0, body[5]), body.skip(6))
            },
            _ => false,
        }
    } else {
        p == decode_fields(tag, body)
    }
}

/// The clipboard stage after one frame at the front of `pend`.
pub open spec fn stage_after(pend: Seq<u8>, stage0: ClipboardStage) -> ClipboardStage {
    let size = be32_of(pend);
    let tag = be32_of(pend.skip(4)) as u32;
    if size <= MAX_FRAME && tag == TAG_DCLP {
        stage_step(stage0, pend.skip(8).take(size - 4)[5])
    } else {
        stage0
    }
}

/// Round trip: the frame `write_wire` emits for a `DeviceInfo` packet
/// decodes back to an equal packet, whatever clipboard stage the connection
/// is in.
pub proof fn lemma_device_info_roundtrip(
    x: u16,
    y: u16,
    w: u16,
    h: u16,
    mx: u16,
    my: u16,
    stage: ClipboardStage,
)
    ensures
        ({
            let p = Packet::DeviceInfo { x, y, w, h, mx, my };
            let f = p.frame_bytes();
            &&& f.len() == 22
            &&& be32_of(f) == 18
            &&& decoded_packet_ok(p, f, stage)
            &&& stage_after(f, stage) == stage
        }),
{
    let p = Packet::DeviceInfo { x, y, w, h, mx, my };
    let f = p.frame_bytes();
    crate::wire::lemma_be32_roundtrip(18);
    crate::wire::lemma_be32_roundtrip(TAG_DINF);
    crate::wire::lemma_be16_roundtrip(x);
    crate::wire::lemma_be16_roundtrip(y);
    crate::wire::lemma_be16_roundtrip(w);
    crate::wire::lemma_be16_roundtrip(h);
    crate::wire::lemma_be16_roundtrip(0);
    crate::wire::lemma_be16_roundtrip(mx);
    crate::wire::lemma_be16_roundtrip(my);
    assert(f.take(4) =~= crate::wire::be32_bytes(18));
    assert(be32_of(f) == 18) by {
        assert(f[0] == crate::wire::be32_bytes(18)[0]);
        assert(f[1] == crate::wire::be32_bytes(18)[1]);
        assert(f[2] == crate::wire::be32_bytes(18)[2]);
        assert(f[3] == crate::wire::be32_bytes(18)[3]);
    }
    assert(f.skip(4).take(4) =~= crate::wire::be32_bytes(TAG_DINF));
    assert(be32_of(f.skip(4)) == TAG_DINF) by {
        assert(f.skip(4)[0] == crate::wire::be32_bytes(TAG_DINF)[0]);
        assert(f.skip(4)[1] == crate::wire::be32_bytes(TAG_DINF)[1]);
        assert(f.skip(4)[2] == crate::wire::be32_bytes(TAG_DINF)[2]);
        assert(f.skip(4)[3] == crate::wire::be32_bytes(TAG_DINF)[3]);
    }
    let body = f.skip(8).take(14);
    assert(body =~= crate::wire::be16_bytes(x) + crate::wire::be16_bytes(y)
        + crate::wire::be16_bytes(w) + crate::wire::be16_bytes(h) + crate::wire::be16_bytes(0)
        + crate::wire::be16_bytes(mx) + crate::wire::be16_bytes(my));
    assert(body.take(2) =~= crate::wire::be16_bytes(x));
    assert(be16_of(body) == x) by {
        assert(body[0] == crate::wire::be16_bytes(x)[0]);
        assert(body[1] == crate::wire::be16_bytes(x)[1]);
    }
    assert(body.skip(2).take(2) =~= crate::wire::be16_bytes(y));
    assert(be16_of(body.skip(2)) == y) by {
        assert(body.skip(2)[0] == crate::wire::be16_bytes(y)[0]);
        assert(body.skip(2)[1] == crate::wire::be16_bytes(y)[1]);
    }
    assert(body.skip(4).take(2) =~= crate::wire::be16_bytes(w));
    assert(be16_of(body.skip(4)) == w) by {
        assert(body.skip(4)[0] == crate::wire::be16_bytes(w)[0]);
        assert(body.skip(4)[1] == crate::wire::be16_bytes(w)[1]);
    }
    assert(body.skip(6).take(2) =~= crate::wire::be16_bytes(h));
    assert(be16_of(body.skip(6)) == h) by {
        assert(body.skip(6)[0] == crate::wire::be16_bytes(h)[0]);
        assert(body.skip(6)[1] == crate::wire::be16_bytes(h)[1]);
    }
    assert(body.skip(10).take(2) =~= crate::wire::be16_bytes(mx));
    assert(be16_of(body.skip(10)) == mx) by {
        assert(body.skip(10)[0] == crate::wire::be16_bytes(mx)[0]);
        assert(body.skip(10)[1] == crate::wire::be16_bytes(mx)[1]);
    }
    assert(body.skip(12).take(2) =~= crate::wire::be16_bytes(my));
    assert(be16_of(body.skip(12)) == my) by {
        assert(body.skip(12)[0] == crate::wire::be16_bytes(my)[0]);
        assert(body.skip(12)[1] == crate::wire::be16_bytes(my)[1]);
    }
    assert(decode_fields(TAG_DINF, body) == p);
}

/// Reads a `DSOP` body: an option count, then key/value pairs of which only
/// the last `HBRT` value is kept.
fn read_dsop<S: PacketReader>(chunk: &mut Take, s: &mut S) -> (r: Result<u32, PacketError>)
    ensures
        final(s).written() == old(s).written(),
        final(chunk).spec_limit() <= old(chunk).spec_limit(),
        match r {
            Ok(hb) => {
                let p0 = old(s).pending();
                let n = be32_of(p0) / 2;
                &&& old(chunk).spec_limit() >= 4 + 8 * n
                &&& p0.len() >= 4 + 8 * n
                &&& final(s).pending() == p0.skip(4 + 8 * n)
                &&& final(chunk).spec_limit() == old(chunk).spec_limit() - (4 + 8 * n)
                &&& hb == heartbeat_scan(p0.skip(4), n, DEFAULT_HEARTBEAT_MS as int)
            },
            Err(e) => !(e is PacketTooSmall),
        },
{
    let ghost p0 = s.pending();
    let ghost limit0 = chunk.spec_limit();
    let num_items = chunk.read_u32(s)?;
    let num_opts = num_items / 2;
    let ghost opts = p0.skip(4);
    let mut heartbeat: u32 = DEFAULT_HEARTBEAT_MS;
    let mut i: u32 = 0;
    while i < num_opts
        invariant
            s.written() == old(s).written(),
            i <= num_opts,
            num_opts == be32_of(p0) / 2,
            p0 == old(s).pending(),
            limit0 == old(chunk).spec_limit(),
            p0.len() >= 4 + 8 * i,
            opts == p0.skip(4),
            limit0 >= 4 + 8 * i,
            chunk.spec_limit() == limit0 - 4 - 8 * i,
            s.pending() == p0.skip(4 + 8 * i),
            heartbeat_scan(opts.skip(8 * i), num_opts - i, heartbeat as int) == heartbeat_scan(
                opts,
                num_opts as int,
                DEFAULT_HEARTBEAT_MS as int,
            ),
        decreases num_opts - i,
    {
        let ghost i0 = i as int;
        let ghost hb0 = heartbeat as int;
        let key = chunk.read_u32(s)?;
        let val = chunk.read_u32(s)?;
        if key == TAG_HBRT {
            heartbeat = val;
        }
        proof {
            assert(opts.skip(8 * i0) =~= p0.skip(4 + 8 * i0));
            assert(opts.skip(8 * i0).skip(4) =~= p0.skip(8 + 8 * i0));
            assert(key == be32_of(opts.skip(8 * i0)));
            assert(val == be32_of(opts.skip(8 * i0).skip(4)));
            assert(opts.skip(8 * i0).skip(8) =~= opts.skip(8 * (i0 + 1)));
            assert(heartbeat_scan(opts.skip(8 * i0), num_opts - i0, hb0) == heartbeat_scan(
                opts.skip(8 * (i0 + 1)),
                num_opts - (i0 + 1),
                heartbeat as int,
            ));
        }
        i = i + 1;
    }
    proof {
        assert(heartbeat_scan(opts.skip(8 * (num_opts as int)), 0, heartbeat as int)
            == heartbeat as int);
    }
    Ok(heartbeat)
}

/// A transport able to bound how long a read may block, so a dead peer is
/// told apart from an idle one. Setting the timeout touches neither byte
/// stream.
pub trait ReadTimeout: StreamModel {
    /// Sets the read timeout in milliseconds; `None` waits forever.
    fn set_read_timeout(&mut self, timeout_ms: Option<u64>) -> (r: Result<(), PacketError>)
        ensures
            final(self).pending() == old(self).pending(),
            final(self).written() == old(self).written(),
    ;
}

/// The frame codec over one byte stream.
pub struct PacketStream<S: PacketReader + PacketWriter> {
    stream: S,
}

impl<S: PacketReader + PacketWriter> StreamModel for PacketStream<S> {
    open spec fn pending(&self) -> Seq<u8> {
        self.spec_pending()
    }

    open spec fn written(&self) -> Seq<u8> {
        self.spec_written()
    }
}

impl<S: PacketReader + PacketWriter> PacketStream<S> {
    /// The bytes the stream has yet to deliver.
    pub closed spec fn spec_pending(&self) -> Seq<u8> {
        self.stream.pending()
    }

    /// The bytes handed to the stream so far.
    pub closed spec fn spec_written(&self) -> Seq<u8> {
        self.stream.written()
    }

    /// Wraps a transport.
    pub fn new(stream: S) -> (r: Self)
        ensures
            r.pending() == stream.pending(),
            r.written() == stream.written(),
    {
        Self { stream }
    }

    /// Decodes exactly one frame, threading the clipboard transfer stage.
    ///
    /// On success the frame's `4 + size` bytes are consumed in full, the
    /// returned packet is the one `decoded_packet_ok` pins to those bytes,
    /// and the stage advanced as `stage_after` says. A frame declaring fewer
    /// than the 4 mandatory tag bytes always fails; `PacketTooSmall` is
    /// returned for it once the rest of the stream is drained.
    #[verifier::rlimit(100)]
    #[verifier::spinoff_prover]
    pub fn read(&mut self, clipboard_stage: &mut ClipboardStage) -> (r: Result<
        Packet,
        PacketError,
    >)
        ensures
            final(self).written() == old(self).written(),
            match r {
                Ok(p) => {
                    let pend = old(self).pending();
                    let size = be32_of(pend);
                    &&& size >= 4
                    &&& pend.len() >= 4 + size
                    &&& final(self).pending() == pend.skip(4 + size)
                    &&& decoded_packet_ok(p, pend, *old(clipboard_stage))
                    &&& *final(clipboard_stage) == stage_after(pend, *old(clipboard_stage))
                },
                Err(e) => {
                    &&& e is PacketTooSmall ==> old(self).pending().len() >= 4 && be32_of(
                        old(self).pending(),
                    ) < 4 && final(self).pending().len() == 0
                },
            },
            old(self).pending().len() >= 4 && be32_of(old(self).pending()) < 4 ==> r is Err,
    {
        let ghost pend = self.stream.pending();
        let ghost stage0 = *clipboard_stage;
        let size = self.stream.read_packet_size()?;
        if size < 4 {
            match self.stream.drain() {
                Ok(_) => {
                    return Err(PacketError::PacketTooSmall);
                },
                Err(_) => {
                    return Err(PacketError::IoError);
                },
            }
        }
        let mut chunk = Take::new(size as u64);
        let code = chunk.read_u32(&mut self.stream)?;
        proof {
            assert(pend.len() >= 8);
            assert(self.stream.pending() =~= pend.skip(8));
        }
        if size > MAX_FRAME {
            chunk.discard_all(&mut self.stream)?;
            proof {
                assert(self.stream.pending() =~= pend.skip(4 + size));
            }
            return Ok(Packet::Unknown(code));
        }
        let ghost body = pend.skip(8).take(size - 4);
        let packet = if code == TAG_QINF {
            Packet::QueryInfo
        } else if code == TAG_CIAK {
            Packet::InfoAck
        } else if code == TAG_CALV {
            Packet::KeepAlive
        } else if code == TAG_CROP {
            Packet::ResetOptions
        } else if code == TAG_EUNK {
            Packet::ErrorUnknownDevice
        } else if code == TAG_COUT {
            Packet::CursorLeave
        } else if code == TAG_DSOP {
            let heartbeat = read_dsop(&mut chunk, &mut self.stream)?;
            Packet::SetDeviceOptions { heartbeat }
        } else if code == TAG_DMMV {
            let x = chunk.read_u16(&mut self.stream)?;
            let y = chunk.read_u16(&mut self.stream)?;
            Packet::MouseMoveAbs { x, y }
        } else if code == TAG_CINN {
            let x = chunk.read_u16(&mut self.stream)?;
            let y = chunk.read_u16(&mut self.stream)?;
            let seq_num = chunk.read_u32(&mut self.stream)?;
            let mask = chunk.read_u16(&mut self.stream)?;
            Packet::CursorEnter { x, y, seq_num, mask }
        } else if code == TAG_CCLP {
            let id = chunk.read_u8(&mut self.stream)?;
            let seq_num = chunk.read_u32(&mut self.stream)?;
            Packet::GrabClipboard { id, seq_num }
        } else if code == TAG_DCLP {
            let id = chunk.read_u8(&mut self.stream)?;
            let seq_num = chunk.read_u32(&mut self.stream)?;
            let mark = chunk.read_u8(&mut self.stream)?;
            crate::client::advance_stage(clipboard_stage, mark);
            let data = if matches!(*clipboard_stage, ClipboardStage::ReceivingMark2(0)) {
                parse_clipboard(&mut chunk, &mut self.stream)?
            } else {
                None
            };
            Packet::SetClipboard { id, seq_num, mark, data }
        } else if code == TAG_DMUP {
            let id = chunk.read_i8(&mut self.stream)?;
            Packet::MouseUp { id }
        } else if code == TAG_DMDN {
            let id = chunk.read_i8(&mut self.stream)?;
            Packet::MouseDown { id }
        } else if code == TAG_DKUP {
            let id = chunk.read_u16(&mut self.stream)?;
            let mask = chunk.read_u16(&mut self.stream)?;
            let button = chunk.read_u16(&mut self.stream)?;
            Packet::KeyUp { id, mask, button }
        } else if code == TAG_DKDN {
            let id = chunk.read_u16(&mut self.stream)?;
            let mask = chunk.read_u16(&mut self.stream)?;
            let button = chunk.read_u16(&mut self.stream)?;
            Packet::KeyDown { id, mask, button }
        } else if code == TAG_DKRP {
            let id = chunk.read_u16(&mut self.stream)?;
            let mask = chunk.read_u16(&mut self.stream)?;
            let count = chunk.read_u16(&mut self.stream)?;
            let button = chunk.read_u16(&mut self.stream)?;
            Packet::KeyRepeat { id, mask, button, count }
        } else if code == TAG_DMWM {
            let x_delta = chunk.read_i16(&mut self.stream)?;
            let y_delta = chunk.read_i16(&mut self.stream)?;
            Packet::MouseWheel { x_delta, y_delta }
        } else if code == TAG_DINF {
            let x = chunk.read_u16(&mut self.stream)?;
            let y = chunk.read_u16(&mut self.stream)?;
            let w = chunk.read_u16(&mut self.stream)?;
            let h = chunk.read_u16(&mut self.stream)?;
            let _dummy = chunk.read_u16(&mut self.stream)?;
            let mx = chunk.read_u16(&mut self.stream)?;
            let my = chunk.read_u16(&mut self.stream)?;
            Packet::DeviceInfo { x, y, w, h, mx, my }
        } else {
            Packet::Unknown(code)
        };
        let ghost packet_g = packet;
        chunk.discard_all(&mut self.stream)?;
        proof {
            assert(self.stream.pending() =~= pend.skip(4 + size));
            assert(pend.len() >= 4 + size);
            let tag = be32_of(pend.skip(4)) as u32;
            assert(code == tag);
            assert(body.len() == size - 4);
            if tag == TAG_DSOP {
                let n = be32_of(pend.skip(8)) / 2;
                assert(be32_of(body) == be32_of(pend.skip(8))) by {
                    assert(body[0] == pend.skip(8)[0]);
                    assert(body[1] == pend.skip(8)[1]);
                    assert(body[2] == pend.skip(8)[2]);
                    assert(body[3] == pend.skip(8)[3]);
                }
                assert(body.skip(4).take(8 * n) =~= pend.skip(12).take(8 * n));
                lemma_heartbeat_scan_prefix(
                    body.skip(4),
                    pend.skip(12),
                    n,
                    DEFAULT_HEARTBEAT_MS as int,
                );
            }
            if tag == TAG_DCLP {
                assert(body[5] == pend[13]);
                assert(body.skip(6) =~= pend.skip(14).take(size - 10));
            }
            assert(decoded_packet_ok(packet_g, pend, stage0));
        }
        Ok(packet)
    }

    /// Encodes one outbound packet onto the stream.
    pub fn write(&mut self, packet: Packet) -> (r: Result<(), PacketError>)
        requires
            packet.encodable(),
        ensures
            final(self).pending() == old(self).pending(),
            match r {
                Ok(_) => final(self).written() == old(self).written() + packet.frame_bytes(),
                Err(_) => true,
            },
    {
        packet.write_wire(&mut self.stream)
    }
}

impl<S: PacketReader + PacketWriter + ReadTimeout> ReadTimeout for PacketStream<S> {
    /// Forwards the timeout to the transport.
    fn set_read_timeout(&mut self, timeout_ms: Option<u64>) -> (r: Result<(), PacketError>) {
        self.stream.set_read_timeout(timeout_ms)
    }
}

/// A combined in-memory transport: it replays a fixed inbound byte
/// sequence, logs every outbound byte, and records the last read timeout.
pub struct MemStream {
    reader: MemReader,
    writer: MemWriter,
    timeout_ms: Option<u64>,
}

impl MemStream {
    /// The last timeout handed to `set_read_timeout`, if any was.
    pub closed spec fn spec_timeout_ms(&self) -> Option<u64> {
        self.timeout_ms
    }

    /// The bytes still to be delivered.
    pub closed spec fn spec_pending(&self) -> Seq<u8> {
        self.reader.spec_pending()
    }

    /// The bytes written so far.
    pub closed spec fn spec_written(&self) -> Seq<u8> {
        self.writer.spec_written()
    }

    /// A transport that will deliver exactly `input`.
    pub fn new(input: Vec<u8>) -> (r: MemStream)
        ensures
            r.pending() == input@,
            r.written() == Seq::<u8>::empty(),
            r.spec_timeout_ms() is None,
    {
        MemStream { reader: MemReader::new(input), writer: MemWriter::new(), timeout_ms: None }
    }

    /// The recorded read timeout.
    pub fn timeout_ms(&self) -> (r: Option<u64>)
        ensures
            r == self.spec_timeout_ms(),
    {
        self.timeout_ms
    }

    /// Hands out everything written so far.
    pub fn into_written(self) -> (r: Vec<u8>)
        ensures
            r@ == self.written(),
    {
        self.writer.into_vec()
    }
}

impl StreamModel for MemStream {
    open spec fn pending(&self) -> Seq<u8> {
        self.spec_pending()
    }

    open spec fn written(&self) -> Seq<u8> {
        self.spec_written()
    }
}

impl PacketReader for MemStream {
    fn read_exact_vec(&mut self, n: usize) -> (r: Result<Vec<u8>, PacketError>)
        ensures
            r is Ok <==> n <= old(self).pending().len(),
            final(self).spec_timeout_ms() == old(self).spec_timeout_ms(),
    {
        self.reader.read_exact_vec(n)
    }

    fn read_up_to(&mut self, n: usize) -> (r: Result<Vec<u8>, PacketError>)
        ensures
            r is Ok,
            final(self).spec_timeout_ms() == old(self).spec_timeout_ms(),
    {
        self.reader.read_up_to(n)
    }

    fn drain(&mut self) -> (r: Result<(), PacketError>)
        ensures
            r is Ok,
            final(self).spec_timeout_ms() == old(self).spec_timeout_ms(),
    {
        self.reader.drain()
    }
}

impl PacketWriter for MemStream {
    fn write_all_bytes(&mut self, data: &[u8]) -> (r: Result<(), PacketError>)
        ensures
            r is Ok,
            final(self).spec_timeout_ms() == old(self).spec_timeout_ms(),
    {
        self.writer.write_all_bytes(data)
    }
}

impl ReadTimeout for MemStream {
    fn set_read_timeout(&mut self, timeout_ms: Option<u64>) -> (r: Result<(), PacketError>)
        ensures
            r is Ok,
            final(self).spec_timeout_ms() == timeout_ms,
    {
        self.timeout_ms = timeout_ms;
        Ok(())
    }
}

} // verus!
