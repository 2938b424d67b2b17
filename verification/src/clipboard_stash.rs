//! The streaming, memory-bounded clipboard reassembly automaton.
//!
//! A clipboard field block is `u32 count`, then per format `u32 code`,
//! `u32 length`, `length` raw bytes, all big-endian. The automaton consumes
//! the block one byte at a time — one state per byte position per field, so
//! no look-ahead and no back-tracking — and captures at most `MAX_SIZE`
//! bytes of the first `Text` format into its single buffer. Every other byte
//! is consumed for framing alignment only and never stored, so memory use
//! stays fixed no matter what sizes the peer declares.

use vstd::prelude::*;

use crate::wire::be32;

verus! {

/// The clipboard payload formats the protocol announces.
#[derive(Copy, Clone, Debug, PartialEq, Eq, Structural)]
pub enum ClipboardFormat {
    Text,
    Html,
    Bitmap,
}

/// Where inside a field block the automaton stands; the `u8` payloads hold
/// the bytes of the big-endian field read so far.
#[derive(Copy, Clone, Debug, PartialEq, Eq, Structural)]
pub enum States {
    /// Before the format count.
    Start,
    NumFormat1(u8),
    NumFormat2(u8, u8),
    NumFormat3(u8, u8, u8),
    /// Before a format code.
    Format0,
    Format1(u8),
    Format2(u8, u8),
    Format3(u8, u8, u8),
    /// Before a format length.
    Size0,
    Size1(u8),
    Size2(u8, u8),
    Size3(u8, u8, u8),
    /// Inside a format's raw bytes: declared length, bytes consumed so far.
    Data(u32, u32),
    /// After the last format; further input is ignored.
    End,
}

/// The capture bound: no more clipboard text than this is ever stored.
pub const MAX_SIZE: usize = 1024;

/// The mathematical state of the automaton.
#[verifier::ext_equal]
pub struct StashView {
    pub state: States,
    pub num_format: u32,
    pub current_index: u32,
    pub current_format: ClipboardFormat,
    pub capturing: bool,
    pub text_seen: bool,
    pub buffer: Seq<u8>,
}

impl StashView {
    /// The state before any byte was fed.
    pub open spec fn initial() -> StashView {
        StashView {
            state: States::Start,
            num_format: 0,
            current_index: 0,
            current_format: ClipboardFormat::Text,
            capturing: false,
            text_seen: false,
            buffer: Seq::<u8>::empty(),
        }
    }

    /// Internal consistency: the buffer respects the capture bound, the
    /// format index stays below the count while a field is open, and inside
    /// a field no more bytes were consumed than declared.
    pub open spec fn wf(self) -> bool {
        &&& self.buffer.len() <= MAX_SIZE
        &&& match self.state {
            States::Format0 | States::Format1(..) | States::Format2(..) | States::Format3(..)
                | States::Size0 | States::Size1(..) | States::Size2(..) | States::Size3(..) => {
                self.current_index < self.num_format
            },
            States::Data(max, cur) => self.current_index < self.num_format && cur < max,
            _ => true,
        }
    }
}

/// One field of the block is complete: move to the next format, or finish.
pub open spec fn finish_field(m: StashView) -> StashView {
    if m.current_index + 1 < m.num_format {
        StashView {
            state: States::Format0,
            current_index: (m.current_index + 1) as u32,
            capturing: false,
            ..m
        }
    } else {
        StashView { state: States::End, capturing: false, ..m }
    }
}

/// The automaton's transition for one input byte.
pub open spec fn step(m: StashView, b: u8) -> StashView {
    match m.state {
        States::Start => StashView { state: States::NumFormat1(b), ..m },
        States::NumFormat1(b0) => StashView { state: States::NumFormat2(b0, b), ..m },
        States::NumFormat2(b0, b1) => StashView { state: States::NumFormat3(b0, b1, b), ..m },
        States::NumFormat3(b0, b1, b2) => {
            let nf = be32(b0, b1, b2, b);
            StashView {
                state: if nf == 0 {
                    States::End
                } else {
                    States::Format0
                },
                num_format: nf as u32,
                current_index: 0,
                ..m
            }
        },
        States::Format0 => StashView { state: States::Format1(b), ..m },
        States::Format1(b0) => StashView { state: States::Format2(b0, b), ..m },
        States::Format2(b0, b1) => StashView { state: States::Format3(b0, b1, b), ..m },
        States::Format3(b0, b1, b2) => {
            let code = be32(b0, b1, b2, b);
            if code == 0 {
                StashView { state: States::Size0, current_format: ClipboardFormat::Text, ..m }
            } else if code == 1 {
                StashView { state: States::Size0, current_format: ClipboardFormat::Html, ..m }
            } else if code == 2 {
                StashView { state: States::Size0, current_format: ClipboardFormat::Bitmap, ..m }
            } else {
                // A format code outside the protocol: abandon the transfer,
                // ignore the rest of the block.
                StashView {
                    state: States::End,
                    num_format: 0,
                    capturing: false,
                    text_seen: false,
                    buffer: Seq::<u8>::empty(),
                    ..m
                }
            }
        },
        States::Size0 => StashView { state: States::Size1(b), ..m },
        States::Size1(b0) => StashView { state: States::Size2(b0, b), ..m },
        States::Size2(b0, b1) => StashView { state: States::Size3(b0, b1, b), ..m },
        States::Size3(b0, b1, b2) => {
            let len = be32(b0, b1, b2, b);
            let cap = m.current_format == ClipboardFormat::Text && !m.text_seen;
            let m2 = StashView { capturing: cap, text_seen: m.text_seen || cap, ..m };
            if len == 0 {
                finish_field(m2)
            } else {
                StashView { state: States::Data(len as u32, 0), ..m2 }
            }
        },
        States::Data(max, cur) => {
            let m2 = if m.capturing && m.buffer.len() < MAX_SIZE {
                StashView { buffer: m.buffer.push(b), ..m }
            } else {
                m
            };
            if cur + 1 == max {
                finish_field(m2)
            } else {
                StashView { state: States::Data(max, (cur + 1) as u32), ..m2 }
            }
        },
        States::End => m,
    }
}

/// The automaton run over a whole byte sequence.
pub open spec fn run(m: StashView, bytes: Seq<u8>) -> StashView
    decreases bytes.len(),
{
    if bytes.len() == 0 {
        m
    } else {
        run(step(m, bytes[0]), bytes.skip(1))
    }
}

/// One step preserves internal consistency.
pub proof fn lemma_step_wf(m: StashView, b: u8)
    requires
        m.wf(),
    ensures
        step(m, b).wf(),
{
}

/// Running over `bytes` and then one more byte is one more step.
pub proof fn lemma_run_snoc(m: StashView, bytes: Seq<u8>, b: u8)
    ensures
        run(m, bytes.push(b)) == step(run(m, bytes), b),
    decreases bytes.len(),
{
    let p = bytes.push(b);
    if bytes.len() == 0 {
        assert(p[0] == b);
        assert(p.skip(1) =~= Seq::<u8>::empty());
        assert(run(m, p) == run(step(m, b), p.skip(1)));
        assert(run(step(m, b), p.skip(1)) == step(m, b));
        assert(run(m, bytes) == m);
    } else {
        assert(p[0] == bytes[0]);
        assert(p.skip(1) =~= bytes.skip(1).push(b));
        assert(run(m, p) == run(step(m, bytes[0]), p.skip(1)));
        lemma_run_snoc(step(m, bytes[0]), bytes.skip(1), b);
        assert(run(m, bytes) == run(step(m, bytes[0]), bytes.skip(1)));
    }
}

/// Running over a concatenation is running over both parts in turn.
pub proof fn lemma_run_append(m: StashView, a: Seq<u8>, b: Seq<u8>)
    ensures
        run(m, a + b) == run(run(m, a), b),
    decreases a.len(),
{
    if a.len() == 0 {
        assert(a + b =~= b);
        assert(run(m, a) == m);
    } else {
        assert((a + b)[0] == a[0]);
        assert((a + b).skip(1) =~= a.skip(1) + b);
        assert(run(m, a + b) == run(step(m, a[0]), (a + b).skip(1)));
        lemma_run_append(step(m, a[0]), a.skip(1), b);
        assert(run(m, a) == run(step(m, a[0]), a.skip(1)));
    }
}

/// Bounded memory: however many bytes a peer declares or delivers, a run
/// of the automaton never stores more than `MAX_SIZE` bytes — consistency,
/// including the capture bound, survives every input sequence.
pub proof fn lemma_run_wf(m: StashView, bytes: Seq<u8>)
    requires
        m.wf(),
    ensures
        run(m, bytes).wf(),
    decreases bytes.len(),
{
    if bytes.len() > 0 {
        lemma_step_wf(m, bytes[0]);
        lemma_run_wf(step(m, bytes[0]), bytes.skip(1));
    }
}

/// A 4-byte field is four steps.
pub proof fn lemma_run4(m: StashView, s: Seq<u8>)
    requires
        s.len() == 4,
    ensures
        run(m, s) == step(step(step(step(m, s[0]), s[1]), s[2]), s[3]),
{
    let s1 = s.skip(1);
    let s2 = s1.skip(1);
    let s3 = s2.skip(1);
    assert(s1[0] == s[1] && s2[0] == s[2] && s3[0] == s[3]);
    assert(s3.skip(1) =~= Seq::<u8>::empty());
    assert(run(m, s) == run(step(m, s[0]), s1));
    assert(run(step(m, s[0]), s1) == run(step(step(m, s[0]), s[1]), s2));
    assert(run(step(step(m, s[0]), s[1]), s2) == run(step(step(step(m, s[0]), s[1]), s[2]), s3));
    assert(run(step(step(step(m, s[0]), s[1]), s[2]), s3) == run(
        step(step(step(step(m, s[0]), s[1]), s[2]), s[3]),
        s3.skip(1),
    ));
}

/// Running through a whole data field: exactly the declared bytes are
/// consumed, at most the free capacity is captured, and the field then
/// finishes.
pub proof fn lemma_run_data(m: StashView, bytes: Seq<u8>)
    requires
        m.wf(),
        m.state matches States::Data(max, cur) && bytes.len() == max - cur,
    ensures
        ({
            let room = if MAX_SIZE - m.buffer.len() <= bytes.len() {
                MAX_SIZE - m.buffer.len()
            } else {
                bytes.len() as int
            };
            let captured = if m.capturing {
                m.buffer + bytes.take(room)
            } else {
                m.buffer
            };
            run(m, bytes) == finish_field(StashView { buffer: captured, ..m })
        }),
    decreases bytes.len(),
{
    let max = m.state->Data_0;
    let cur = m.state->Data_1;
    let room = if MAX_SIZE - m.buffer.len() <= bytes.len() {
        MAX_SIZE - m.buffer.len()
    } else {
        bytes.len() as int
    };
    let captured = if m.capturing {
        m.buffer + bytes.take(room)
    } else {
        m.buffer
    };
    let m2 = step(m, bytes[0]);
    assert(run(m, bytes) == run(m2, bytes.skip(1)));
    if bytes.len() == 1 {
        assert(cur + 1 == max);
        assert(m2 == finish_field(
            if m.capturing && m.buffer.len() < MAX_SIZE {
                StashView { buffer: m.buffer.push(bytes[0]), ..m }
            } else {
                m
            },
        ));
        if m.capturing && m.buffer.len() < MAX_SIZE {
            assert(m.buffer.push(bytes[0]) =~= m.buffer + bytes.take(1));
        } else if m.capturing {
            assert(m.buffer + bytes.take(0) =~= m.buffer);
        }
        assert(run(m2, bytes.skip(1)) == m2);
        assert(finish_field(StashView { buffer: captured, ..m }) =~~= m2);
    } else {
        let pushed = m.capturing && m.buffer.len() < MAX_SIZE;
        let mb = if pushed {
            StashView { buffer: m.buffer.push(bytes[0]), ..m }
        } else {
            m
        };
        assert(m2 == StashView { state: States::Data(max, (cur + 1) as u32), ..mb });
        lemma_step_wf(m, bytes[0]);
        lemma_run_data(m2, bytes.skip(1));
        let room2 = if MAX_SIZE - m2.buffer.len() <= bytes.skip(1).len() {
            MAX_SIZE - m2.buffer.len()
        } else {
            bytes.skip(1).len() as int
        };
        let captured2 = if m2.capturing {
            m2.buffer + bytes.skip(1).take(room2)
        } else {
            m2.buffer
        };
        if m.capturing {
            if pushed {
                assert(m.buffer.push(bytes[0]) + bytes.skip(1).take(room2) =~= m.buffer
                    + bytes.take(room));
            } else {
                assert(m.buffer + bytes.take(room) =~= m.buffer);
                assert(captured2 =~= m.buffer);
            }
        }
        assert(captured2 =~= captured);
        assert(finish_field(StashView { buffer: captured2, ..m2 }) =~~= finish_field(
            StashView { buffer: captured, ..m },
        ));
    }
}

/// Feeding nothing changes nothing: the automaton is restart-safe.
pub proof fn lemma_run_empty(m: StashView)
    ensures
        run(m, Seq::<u8>::empty()) == m,
{
}

/// The incremental, bounded reassembly state for one clipboard transfer.
pub struct ClipboardStash {
    /// Where inside the block the automaton stands.
    pub state: States,
    /// The declared number of formats.
    pub num_format: u32,
    /// Which format the automaton is currently inside.
    pub current_index: u32,
    current_format: ClipboardFormat,
    capturing: bool,
    text_seen: bool,
    buffer: Vec<u8>,
}

impl ClipboardStash {
    /// The mathematical state this value stands for.
    pub closed spec fn model(&self) -> StashView {
        StashView {
            state: self.state,
            num_format: self.num_format,
            current_index: self.current_index,
            current_format: self.current_format,
            capturing: self.capturing,
            text_seen: self.text_seen,
            buffer: self.buffer@,
        }
    }

    /// An automaton that has seen no byte yet.
    pub fn new() -> (r: ClipboardStash)
        ensures
            r.model() == StashView::initial(),
    {
        let r = ClipboardStash {
            state: States::Start,
            num_format: 0,
            current_index: 0,
            current_format: ClipboardFormat::Text,
            capturing: false,
            text_seen: false,
            buffer: Vec::new(),
        };
        proof {
            assert(r.model() =~= StashView::initial());
        }
        r
    }

    /// Feeds one chunk of the block into the automaton; feeding an empty
    /// chunk is a no-op.
    pub fn feed(&mut self, chunk: &[u8])
        requires
            old(self).model().wf(),
        ensures
            final(self).model() == run(old(self).model(), chunk@),
            final(self).model().wf(),
    {
        let mut i: usize = 0;
        while i < chunk.len()
            invariant
                i <= chunk@.len(),
                self.model().wf(),
                self.model() == run(old(self).model(), chunk@.take(i as int)),
            decreases chunk@.len() - i,
        {
            let ghost pre = self.model();
            let b = chunk[i];
            match self.state {
                States::Start => {
                    self.state = States::NumFormat1(b);
                },
                States::NumFormat1(b0) => {
                    self.state = States::NumFormat2(b0, b);
                },
                States::NumFormat2(b0, b1) => {
                    self.state = States::NumFormat3(b0, b1, b);
                },
                States::NumFormat3(b0, b1, b2) => {
                    let nf = crate::wire::u32_from_be(b0, b1, b2, b);
                    self.num_format = nf;
                    self.current_index = 0;
                    self.state = if nf == 0 {
                        States::End
                    } else {
                        States::Format0
                    };
                },
                States::Format0 => {
                    self.state = States::Format1(b);
                },
                States::Format1(b0) => {
                    self.state = States::Format2(b0, b);
                },
                States::Format2(b0, b1) => {
                    self.state = States::Format3(b0, b1, b);
                },
                States::Format3(b0, b1, b2) => {
                    let code = crate::wire::u32_from_be(b0, b1, b2, b);
                    if code == 0 {
                        self.current_format = ClipboardFormat::Text;
                        self.state = States::Size0;
                    } else if code == 1 {
                        self.current_format = ClipboardFormat::Html;
                        self.state = States::Size0;
                    } else if code == 2 {
                        self.current_format = ClipboardFormat::Bitmap;
                        self.state = States::Size0;
                    } else {
                        self.state = States::End;
                        self.num_format = 0;
                        self.capturing = false;
                        self.text_seen = false;
                        self.buffer = Vec::new();
                    }
                },
                States::Size0 => {
                    self.state = States::Size1(b);
                },
                States::Size1(b0) => {
                    self.state = States::Size2(b0, b);
                },
                States::Size2(b0, b1) => {
                    self.state = States::Size3(b0, b1, b);
                },
                States::Size3(b0, b1, b2) => {
                    let len = crate::wire::u32_from_be(b0, b1, b2, b);
                    let cap = matches!(self.current_format, ClipboardFormat::Text)
                        && !self.text_seen;
                    self.capturing = cap;
                    self.text_seen = self.text_seen || cap;
                    if len == 0 {
                        self.finish_field_exec();
                    } else {
                        self.state = States::Data(len, 0);
                    }
                },
                States::Data(max, cur) => {
                    if self.capturing && self.buffer.len() < MAX_SIZE {
                        self.buffer.push(b);
                    }
                    if cur + 1 == max {
                        self.finish_field_exec();
                    } else {
                        self.state = States::Data(max, cur + 1);
                    }
                },
                States::End => {},
            }
            proof {
                assert(self.model() =~= step(pre, b));
                lemma_step_wf(pre, b);
                assert(chunk@.take(i + 1) =~= chunk@.take(i as int).push(b));
                lemma_run_snoc(old(self).model(), chunk@.take(i as int), b);
            }
            i += 1;
        }
        proof {
            assert(chunk@.take(chunk@.len() as int) =~= chunk@);
        }
    }

    /// Moves past a completed field.
    fn finish_field_exec(&mut self)
        ensures
            final(self).model() == finish_field(old(self).model()),
    {
        if self.num_format > 0 && self.current_index < self.num_format - 1 {
            self.current_index = self.current_index + 1;
            self.state = States::Format0;
            self.capturing = false;
        } else {
            self.state = States::End;
            self.capturing = false;
        }
        proof {
            assert(self.model() =~= finish_field(old(self).model()));
        }
    }

    /// The format the automaton currently stands in.
    pub fn get_current_format(&self) -> (r: ClipboardFormat)
        ensures
            r == self.model().current_format,
    {
        self.current_format
    }

    /// The captured text: `Some` exactly when the transfer announced a Text
    /// format and at least one of its bytes was captured.
    pub fn into_data(self) -> (r: Option<Vec<u8>>)
        ensures
            match r {
                Some(v) => self.model().text_seen && self.model().buffer.len() > 0 && v@
                    == self.model().buffer,
                None => !(self.model().text_seen && self.model().buffer.len() > 0),
            },
    {
        if self.text_seen && self.buffer.len() > 0 {
            Some(self.buffer)
        } else {
            None
        }
    }

    /// Whether the transfer announced no format at all.
    pub fn is_empty(&self) -> (r: bool)
        ensures
            r == (self.model().num_format == 0),
    {
        self.num_format == 0
    }

    /// Whether the automaton consumed the whole block.
    pub fn ended(&self) -> (r: bool)
        ensures
            r == (self.model().state is End),
    {
        matches!(self.state, States::End)
    }
}

impl Default for ClipboardStash {
    /// An automaton that has seen no byte yet.
    fn default() -> (r: ClipboardStash)
        ensures
            r.model() == StashView::initial(),
    {
        ClipboardStash::new()
    }
}

} // verus!
