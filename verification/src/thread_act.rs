//! The concurrency boundary between the network loop and the actuation
//! hardware: a bounded FIFO mailbox of actuator commands, and the
//! forwarding handle the session drives.
//!
//! The handle only enqueues; the actuation context owns the concrete
//! actuator, drains the mailbox, and applies each command with
//! `dispatch_msg`. Ownership of every command moves into the mailbox whole,
//! so producer and consumer share no mutable state but the queue itself.

use vstd::prelude::*;

use crate::actuator::Actuator;

verus! {

/// One actuator command in flight, mirroring the `Actuator` capabilities.
#[derive(Debug, Clone, PartialEq, Eq)]
pub enum ActMsg {
    Connected,
    Disconnected,
    SetCursorPosition { x: u16, y: u16 },
    MoveCursor { x: i16, y: i16 },
    MouseDown { button: i8 },
    MouseUp { button: i8 },
    MouseWheel { x: i16, y: i16 },
    KeyDown { key: u16, mask: u16, button: u16 },
    KeyRepeat { key: u16, mask: u16, button: u16, count: u16 },
    KeyUp { key: u16, mask: u16, button: u16 },
    SetClipboard { data: Vec<u8> },
    SetOptions { heartbeat: u32 },
    ResetOptions,
    Enter,
    Leave,
    HidKeyDown { key: u8 },
    HidKeyUp { key: u8 },
}

/// How many commands the mailbox holds before the producer must wait.
pub const MAILBOX_CAPACITY: usize = 16;

/// What one enqueue attempt leaves in the queue: appended at the tail when
/// there is room, unchanged when there is none.
pub open spec fn spec_enqueue(q: Seq<ActMsg>, capacity: int, m: ActMsg) -> Seq<ActMsg> {
    if q.len() < capacity {
        q.push(m)
    } else {
        q
    }
}

/// The bounded FIFO channel between the session and the actuation context.
pub struct Mailbox {
    queue: Vec<ActMsg>,
    capacity: usize,
}

impl Mailbox {
    /// The commands in flight, oldest first.
    pub closed spec fn contents(&self) -> Seq<ActMsg> {
        self.queue@
    }

    /// The bound the mailbox was created with.
    pub closed spec fn spec_capacity(&self) -> usize {
        self.capacity
    }

    /// An empty mailbox with the given bound.
    pub fn new(capacity: usize) -> (r: Mailbox)
        ensures
            r.contents() == Seq::<ActMsg>::empty(),
            r.spec_capacity() == capacity,
    {
        Mailbox { queue: Vec::new(), capacity }
    }

    /// How many commands are in flight.
    pub fn len(&self) -> (r: usize)
        ensures
            r == self.contents().len(),
    {
        self.queue.len()
    }

    /// The bound the mailbox was created with.
    pub fn capacity(&self) -> (r: usize)
        ensures
            r == self.spec_capacity(),
    {
        self.capacity
    }

    /// Enqueues one command at the tail; reports whether there was room.
    /// A full mailbox leaves the queue unchanged — the caller decides
    /// whether to wait and retry (backpressure) or give the command up.
    pub fn send(&mut self, msg: ActMsg) -> (r: bool)
        ensures
            final(self).spec_capacity() == old(self).spec_capacity(),
            r == (old(self).contents().len() < old(self).spec_capacity()),
            final(self).contents() == spec_enqueue(
                old(self).contents(),
                old(self).spec_capacity() as int,
                msg,
            ),
    {
        if self.queue.len() < self.capacity {
            self.queue.push(msg);
            true
        } else {
            false
        }
    }

    /// Enqueues one command at the tail, waiting for room rather than ever
    /// dropping: over the real channel the producer blocks until the
    /// consumer drains; in this in-memory model the queue simply grows past
    /// the bound. Either way the command is never lost and order is kept.
    pub fn send_blocking(&mut self, msg: ActMsg)
        ensures
            final(self).spec_capacity() == old(self).spec_capacity(),
            final(self).contents() == old(self).contents().push(msg),
    {
        self.queue.push(msg);
    }

    /// Dequeues the oldest command, if any.
    pub fn recv(&mut self) -> (r: Option<ActMsg>)
        ensures
            final(self).spec_capacity() == old(self).spec_capacity(),
            match r {
                Some(m) => old(self).contents().len() > 0 && m == old(self).contents()[0]
                    && final(self).contents() == old(self).contents().skip(1),
                None => old(self).contents().len() == 0 && final(self).contents() == old(
                    self,
                ).contents(),
            },
    {
        if self.queue.len() > 0 {
            let m = self.queue.remove(0);
            proof {
                assert(self.queue@ =~= old(self).queue@.skip(1));
            }
            Some(m)
        } else {
            None
        }
    }
}

/// First in, first out, nothing dropped: however the consumer's progress
/// interleaves with the session's, commands are observed in exactly the
/// order they were enqueued. Enqueuing `msgs` one after another behind `q`
/// appends them all, in order; and after the consumer has taken any `k`
/// commands, what remains is still that sequence, `k` further along —
/// never reordered, never missing one.
pub proof fn lemma_mailbox_fifo(q: Seq<ActMsg>, msgs: Seq<ActMsg>, k: int)
    requires
        0 <= k <= q.len(),
    ensures
        msgs.fold_left(q, |acc: Seq<ActMsg>, m: ActMsg| acc.push(m)) == q + msgs,
        (q + msgs).skip(k) == q.skip(k) + msgs,
    decreases msgs.len(),
{
    let enq = |acc: Seq<ActMsg>, m: ActMsg| acc.push(m);
    if msgs.len() == 0 {
        assert(msgs.fold_left(q, enq) == q);
        assert(q + msgs =~= q);
    } else {
        let front = msgs.take(msgs.len() - 1);
        let last = msgs[msgs.len() - 1];
        lemma_mailbox_fifo(q, front, k);
        assert(msgs.fold_left(q, enq) == enq(front.fold_left(q, enq), last));
        assert(enq(q + front, last) =~= q + msgs);
        assert((q + msgs).skip(k) =~= q.skip(k) + msgs);
    }
    assert((q + msgs).skip(k) =~= q.skip(k) + msgs);
}

/// Applies one dequeued command to the concrete actuator. The actuation
/// context runs this in a loop over what it receives from the mailbox.
pub fn dispatch_msg<A: Actuator>(actor: &mut A, msg: ActMsg) {
    match msg {
        ActMsg::Connected => actor.connected(),
        ActMsg::Disconnected => actor.disconnected(),
        ActMsg::SetCursorPosition { x, y } => actor.set_cursor_position(x, y),
        ActMsg::MoveCursor { x, y } => actor.move_cursor(x, y),
        ActMsg::MouseDown { button } => actor.mouse_down(button),
        ActMsg::MouseUp { button } => actor.mouse_up(button),
        ActMsg::MouseWheel { x, y } => actor.mouse_wheel(x, y),
        ActMsg::KeyDown { key, mask, button } => actor.key_down(key, mask, button),
        ActMsg::KeyRepeat { key, mask, button, count } => actor.key_repeat(key, mask, button, count),
        ActMsg::KeyUp { key, mask, button } => actor.key_up(key, mask, button),
        ActMsg::SetClipboard { data } => actor.set_clipboard(data),
        ActMsg::SetOptions { heartbeat } => actor.set_options(heartbeat),
        ActMsg::ResetOptions => actor.reset_options(),
        ActMsg::Enter => actor.enter(),
        ActMsg::Leave => actor.leave(),
        ActMsg::HidKeyDown { key } => actor.hid_key_down(key),
        ActMsg::HidKeyUp { key } => actor.hid_key_up(key),
    }
}

/// The session-facing forwarding handle: every capability call becomes
/// exactly one enqueued command — enqueueing waits, it never drops, since a
/// dropped key-up would desynchronize the keyboard — while the screen size
/// and an optimistic cursor position stay readable here without a round
/// trip through the mailbox.
pub struct ThreadedActuator {
    screen_width: u16,
    screen_height: u16,
    cursor_x: u16,
    cursor_y: u16,
    mailbox: Mailbox,
}

impl ThreadedActuator {
    /// The commands enqueued and not yet consumed, oldest first.
    pub closed spec fn pending_msgs(&self) -> Seq<ActMsg> {
        self.mailbox.contents()
    }

    /// The mailbox bound.
    pub closed spec fn spec_capacity(&self) -> usize {
        self.mailbox.spec_capacity()
    }

    /// The cached cursor position.
    pub closed spec fn spec_cursor(&self) -> (u16, u16) {
        (self.cursor_x, self.cursor_y)
    }

    /// The screen size the handle was built for.
    pub closed spec fn spec_screen(&self) -> (u16, u16) {
        (self.screen_width, self.screen_height)
    }

    /// A handle with an empty mailbox of the standard bound.
    pub fn new(screen_width: u16, screen_height: u16) -> (r: ThreadedActuator)
        ensures
            r.pending_msgs() == Seq::<ActMsg>::empty(),
            r.spec_capacity() == MAILBOX_CAPACITY,
            r.spec_screen() == (screen_width, screen_height),
            r.spec_cursor() == (0u16, 0u16),
    {
        ThreadedActuator {
            screen_width,
            screen_height,
            cursor_x: 0,
            cursor_y: 0,
            mailbox: Mailbox::new(MAILBOX_CAPACITY),
        }
    }

    /// Hands out the enqueue side of the mailbox, for a second producer
    /// such as the paste button.
    pub fn get_sender(&mut self) -> (r: &mut Mailbox)
        ensures
            r.contents() == old(self).pending_msgs(),
            r.spec_capacity() == old(self).spec_capacity(),
            final(self).pending_msgs() == final(r).contents(),
            final(self).spec_capacity() == final(r).spec_capacity(),
            final(self).spec_screen() == old(self).spec_screen(),
            final(self).spec_cursor() == old(self).spec_cursor(),
    {
        &mut self.mailbox
    }

    /// Enqueues one command, waiting for room rather than dropping it.
    pub fn send(&mut self, msg: ActMsg)
        ensures
            final(self).spec_capacity() == old(self).spec_capacity(),
            final(self).spec_screen() == old(self).spec_screen(),
            final(self).spec_cursor() == old(self).spec_cursor(),
            final(self).pending_msgs() == old(self).pending_msgs().push(msg),
    {
        self.mailbox.send_blocking(msg)
    }

    /// What every enqueue-only capability call leaves behind: exactly the
    /// one command appended, nothing dropped, everything else untouched.
    pub open spec fn forwarded(self, pre: ThreadedActuator, msg: ActMsg) -> bool {
        &&& self.pending_msgs() == pre.pending_msgs().push(msg)
        &&& self.spec_capacity() == pre.spec_capacity()
        &&& self.spec_screen() == pre.spec_screen()
        &&& self.spec_cursor() == pre.spec_cursor()
    }

    /// Dequeues the oldest command; the actuation context's side.
    pub fn take_msg(&mut self) -> (r: Option<ActMsg>)
        ensures
            final(self).spec_capacity() == old(self).spec_capacity(),
            final(self).spec_screen() == old(self).spec_screen(),
            final(self).spec_cursor() == old(self).spec_cursor(),
            match r {
                Some(m) => old(self).pending_msgs().len() > 0 && m == old(self).pending_msgs()[0]
                    && final(self).pending_msgs() == old(self).pending_msgs().skip(1),
                None => old(self).pending_msgs().len() == 0 && final(self).pending_msgs() == old(
                    self,
                ).pending_msgs(),
            },
    {
        self.mailbox.recv()
    }
}

impl Actuator for ThreadedActuator {
    fn connected(&mut self)
        ensures
            final(self).forwarded(*old(self), ActMsg::Connected),
    {
        self.send(ActMsg::Connected);
    }

    fn disconnected(&mut self)
        ensures
            final(self).forwarded(*old(self), ActMsg::Disconnected),
    {
        self.send(ActMsg::Disconnected);
    }

    fn get_screen_size(&self) -> (r: (u16, u16))
        ensures
            r == self.spec_screen(),
    {
        (self.screen_width, self.screen_height)
    }

    fn get_cursor_position(&self) -> (r: (u16, u16))
        ensures
            r == self.spec_cursor(),
    {
        (self.cursor_x, self.cursor_y)
    }

    fn set_cursor_position(&mut self, x: u16, y: u16)
        ensures
            final(self).pending_msgs() == old(self).pending_msgs().push(
                ActMsg::SetCursorPosition { x, y },
            ),
            final(self).spec_capacity() == old(self).spec_capacity(),
            final(self).spec_screen() == old(self).spec_screen(),
            final(self).spec_cursor() == (x, y),
    {
        self.send(ActMsg::SetCursorPosition { x, y });
        self.cursor_x = x;
        self.cursor_y = y;
    }

    fn move_cursor(&mut self, x: i16, y: i16)
        ensures
            final(self).pending_msgs() == old(self).pending_msgs().push(
                ActMsg::MoveCursor { x, y },
            ),
            final(self).spec_capacity() == old(self).spec_capacity(),
            final(self).spec_screen() == old(self).spec_screen(),
            final(self).spec_cursor().0 == crate::wire::wrap_add16(old(self).spec_cursor().0 as int, x as int),
            final(self).spec_cursor().1 == crate::wire::wrap_add16(old(self).spec_cursor().1 as int, y as int),
    {
        self.send(ActMsg::MoveCursor { x, y });
        self.cursor_x = crate::wire::wrap_add16_exec(self.cursor_x, x);
        self.cursor_y = crate::wire::wrap_add16_exec(self.cursor_y, y);
    }

    fn mouse_down(&mut self, button: i8)
        ensures
            final(self).forwarded(*old(self), ActMsg::MouseDown { button }),
    {
        self.send(ActMsg::MouseDown { button });
    }

    fn mouse_up(&mut self, button: i8)
        ensures
            final(self).forwarded(*old(self), ActMsg::MouseUp { button }),
    {
        self.send(ActMsg::MouseUp { button });
    }

    fn mouse_wheel(&mut self, x: i16, y: i16)
        ensures
            final(self).forwarded(*old(self), ActMsg::MouseWheel { x, y }),
    {
        self.send(ActMsg::MouseWheel { x, y });
    }

    fn key_down(&mut self, key: u16, mask: u16, button: u16)
        ensures
            final(self).forwarded(*old(self), ActMsg::KeyDown { key, mask, button }),
    {
        self.send(ActMsg::KeyDown { key, mask, button });
    }

    fn key_repeat(&mut self, key: u16, mask: u16, button: u16, count: u16)
        ensures
            final(self).forwarded(*old(self), ActMsg::KeyRepeat { key, mask, button, count }),
    {
        self.send(ActMsg::KeyRepeat { key, mask, button, count });
    }

    fn key_up(&mut self, key: u16, mask: u16, button: u16)
        ensures
            final(self).forwarded(*old(self), ActMsg::KeyUp { key, mask, button }),
    {
        self.send(ActMsg::KeyUp { key, mask, button });
    }

    fn set_clipboard(&mut self, data: Vec<u8>)
        ensures
            final(self).forwarded(*old(self), ActMsg::SetClipboard { data }),
    {
        self.send(ActMsg::SetClipboard { data });
    }

    fn set_options(&mut self, heartbeat: u32)
        ensures
            final(self).forwarded(*old(self), ActMsg::SetOptions { heartbeat }),
    {
        self.send(ActMsg::SetOptions { heartbeat });
    }

    fn reset_options(&mut self)
        ensures
            final(self).forwarded(*old(self), ActMsg::ResetOptions),
    {
        self.send(ActMsg::ResetOptions);
    }

    fn enter(&mut self)
        ensures
            final(self).forwarded(*old(self), ActMsg::Enter),
    {
        self.send(ActMsg::Enter);
    }

    fn leave(&mut self)
        ensures
            final(self).forwarded(*old(self), ActMsg::Leave),
    {
        self.send(ActMsg::Leave);
    }

    fn hid_key_down(&mut self, key: u8)
        ensures
            final(self).forwarded(*old(self), ActMsg::HidKeyDown { key }),
    {
        self.send(ActMsg::HidKeyDown { key });
    }

    fn hid_key_up(&mut self, key: u8)
        ensures
            final(self).forwarded(*old(self), ActMsg::HidKeyUp { key }),
    {
        self.send(ActMsg::HidKeyUp { key });
    }
}

} // verus!
