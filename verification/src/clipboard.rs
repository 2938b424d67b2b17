//! One-shot decoding of a clipboard field block inside a single frame.
//!
//! `parse_clipboard` drives the verified reassembly automaton over the whole
//! remainder of the frame, 16 bytes at a time, so the frame stays aligned
//! whatever the peer declared and at most `MAX_SIZE` bytes of text are ever
//! stored.

use vstd::prelude::*;

pub use crate::clipboard_stash::ClipboardFormat;
use crate::clipboard_stash::{run, ClipboardStash, StashView, States};
use crate::error::PacketError;
use crate::packet_io::PacketReader;
use crate::take::Take;

verus! {

/// What a completed run of the automaton hands out: the captured text, if
/// the block announced a Text format and at least one byte was captured.
pub open spec fn clipboard_outcome(bytes: Seq<u8>) -> Option<Seq<u8>> {
    let m = run(StashView::initial(), bytes);
    if m.text_seen && m.buffer.len() > 0 {
        Some(m.buffer)
    } else {
        None
    }
}

/// The canonical transfer, for any text: a block announcing one Text
/// format of any declared length runs the automaton to its end — every
/// declared byte is consumed, so the frame stays aligned — and captures
/// exactly the text, cut at `MAX_SIZE`; the capture is handed out whenever
/// the text is not empty.
pub proof fn lemma_text_block_outcome(text: Seq<u8>)
    requires
        text.len() <= u32::MAX,
    ensures
        ({
            let block = crate::wire::be32_bytes(1) + crate::wire::be32_bytes(0)
                + crate::wire::be32_bytes(text.len() as u32) + text;
            let bound = if text.len() <= crate::clipboard_stash::MAX_SIZE {
                text.len() as int
            } else {
                crate::clipboard_stash::MAX_SIZE as int
            };
            let m = run(StashView::initial(), block);
            &&& m.state is End
            &&& m.text_seen
            &&& m.buffer == text.take(bound)
            &&& (text.len() > 0 ==> clipboard_outcome(block) == Some(text.take(bound)))
            &&& (text.len() == 0 ==> clipboard_outcome(block) is None)
        }),
{
    let count = crate::wire::be32_bytes(1);
    let code = crate::wire::be32_bytes(0);
    let len = crate::wire::be32_bytes(text.len() as u32);
    let block = count + code + len + text;
    let m0 = StashView::initial();
    crate::wire::lemma_be32_roundtrip(1);
    crate::wire::lemma_be32_roundtrip(0);
    crate::wire::lemma_be32_roundtrip(text.len() as u32);
    crate::clipboard_stash::lemma_run_append(m0, count, code + len + text);
    crate::clipboard_stash::lemma_run4(m0, count);
    let m1 = run(m0, count);
    assert(m1.state is Format0 && m1.num_format == 1 && m1.current_index == 0);
    assert(m1.buffer =~= Seq::<u8>::empty());
    crate::clipboard_stash::lemma_run_append(m1, code, len + text);
    crate::clipboard_stash::lemma_run4(m1, code);
    let m2 = run(m1, code);
    assert(m2.state is Size0 && m2.current_format is Text && !m2.text_seen);
    crate::clipboard_stash::lemma_run_append(m2, len, text);
    crate::clipboard_stash::lemma_run4(m2, len);
    let m3 = run(m2, len);
    assert(block =~= count + (code + len + text));
    assert((code + len + text) =~= code + (len + text));
    assert(run(m0, block) == run(m3, text));
    if text.len() == 0 {
        assert(m3 == crate::clipboard_stash::finish_field(
            StashView { capturing: true, text_seen: true, ..m2 },
        ));
        assert(m3.state is End && m3.text_seen && m3.buffer =~= text.take(0));
        assert(run(m3, text) == m3);
    } else {
        assert(m3.state == States::Data(text.len() as u32, 0u32));
        assert(m3.capturing && m3.text_seen);
        assert(m3.buffer =~= Seq::<u8>::empty());
        assert(m3.wf());
        crate::clipboard_stash::lemma_run_data(m3, text);
        let room = if crate::clipboard_stash::MAX_SIZE - m3.buffer.len() <= text.len() {
            crate::clipboard_stash::MAX_SIZE - m3.buffer.len()
        } else {
            text.len() as int
        };
        let captured = m3.buffer + text.take(room);
        assert(captured =~= text.take(room));
        let out = crate::clipboard_stash::finish_field(StashView { buffer: captured, ..m3 });
        assert(out.state is End && out.text_seen);
        assert(out.buffer.len() > 0);
    }
}

/// Consumes the whole remainder of the frame fenced by `chunk` and returns
/// the text captured from it, bounded by `MAX_SIZE`. A malformed block
/// yields `None`; only a transport failure is an error.
pub fn parse_clipboard<S: PacketReader>(chunk: &mut Take, stream: &mut S) -> (r: Result<
    Option<Vec<u8>>,
    PacketError,
>)
    ensures
        final(stream).written() == old(stream).written(),
        final(chunk).spec_limit() <= old(chunk).spec_limit(),
        match r {
            Ok(data) => {
                &&& old(stream).pending().len() >= old(chunk).spec_limit()
                &&& final(stream).pending() == old(stream).pending().skip(
                    old(chunk).spec_limit() as int,
                )
                &&& final(chunk).spec_limit() == 0
                &&& match data {
                    Some(v) => Some(v@) == clipboard_outcome(
                        old(stream).pending().take(old(chunk).spec_limit() as int),
                    ),
                    None => clipboard_outcome(
                        old(stream).pending().take(old(chunk).spec_limit() as int),
                    ) is None,
                }
            },
            Err(e) => !(e is PacketTooSmall),
        },
{
    let ghost limit0 = old(chunk).spec_limit() as int;
    let mut stash = ClipboardStash::new();
    proof {
        assert(old(stream).pending().take(0) =~= Seq::<u8>::empty());
    }
    while chunk.limit() > 0
        invariant
            stream.written() == old(stream).written(),
            stash.model().wf(),
            limit0 == old(chunk).spec_limit(),
            chunk.spec_limit() <= limit0,
            old(stream).pending().len() >= limit0 - chunk.spec_limit(),
            stream.pending() == old(stream).pending().skip(limit0 - chunk.spec_limit()),
            stash.model() == run(
                StashView::initial(),
                old(stream).pending().take(limit0 - chunk.spec_limit()),
            ),
        decreases chunk.spec_limit(),
    {
        let ghost consumed = limit0 - chunk.spec_limit();
        let step_n: usize = if chunk.limit() < 16 {
            chunk.limit() as usize
        } else {
            16
        };
        let v = chunk.read_exact(stream, step_n)?;
        stash.feed(v.as_slice());
        proof {
            assert(v@ == old(stream).pending().skip(consumed).take(step_n as int));
            assert(old(stream).pending().take(consumed + step_n) =~= old(
                stream,
            ).pending().take(consumed) + v@);
            crate::clipboard_stash::lemma_run_append(
                StashView::initial(),
                old(stream).pending().take(consumed),
                v@,
            );
        }
    }
    proof {
        assert(old(stream).pending().take(limit0) =~= old(stream).pending().take(
            limit0 - chunk.spec_limit(),
        ));
    }
    Ok(stash.into_data())
}

} // verus!
