//! Typing the stored clipboard out as key events.
//!
//! A press of the paste button turns each clipboard byte into the HID key
//! strokes that produce it — a plain press and release, wrapped in a shift
//! press and release where the character needs it — and enqueues them into
//! the actuation mailbox. Only 7-bit ASCII has a HID code; everything else
//! is skipped.

use vstd::prelude::*;

use crate::thread_act::{ActMsg, Mailbox};

verus! {

/// The HID usage of the left shift modifier key.
pub const HID_LEFT_SHIFT: u8 = 0xE1;

/// The HID usage and required modifier key for one ASCII byte; `(0, 0)`
/// where no usage exists.
pub open spec fn ascii_hid(b: u8) -> (u8, u8) {
    if 0x61 <= b <= 0x7A {  // 'a'..'z'
        ((b - 0x5D) as u8, 0u8)
    } else if 0x41 <= b <= 0x5A {  // 'A'..'Z'
        ((b - 0x3D) as u8, HID_LEFT_SHIFT)
    } else if 0x31 <= b <= 0x39 {  // '1'..'9'
        ((0x1E + (b - 0x31)) as u8, 0u8)
    } else if b == 0x30 {  // '0'
        (0x27u8, 0u8)
    } else if b == 0x0A {  // line feed
        (0x28u8, 0u8)
    } else if b == 0x09 {  // tab
        (0x2Bu8, 0u8)
    } else if b == 0x20 {  // space
        (0x2Cu8, 0u8)
    } else if b == 0x2D {  // '-'
        (0x2Du8, 0u8)
    } else if b == 0x3D {  // '='
        (0x2Eu8, 0u8)
    } else if b == 0x5B {  // '['
        (0x2Fu8, 0u8)
    } else if b == 0x5D {  // ']'
        (0x30u8, 0u8)
    } else if b == 0x5C {  // '\'
        (0x31u8, 0u8)
    } else if b == 0x3B {  // ';'
        (0x33u8, 0u8)
    } else if b == 0x27 {  // apostrophe
        (0x34u8, 0u8)
    } else if b == 0x60 {  // '`'
        (0x35u8, 0u8)
    } else if b == 0x2C {  // ','
        (0x36u8, 0u8)
    } else if b == 0x2E {  // '.'
        (0x37u8, 0u8)
    } else if b == 0x2F {  // '/'
        (0x38u8, 0u8)
    } else if b == 0x21 {  // '!'
        (0x1Eu8, HID_LEFT_SHIFT)
    } else if b == 0x40 {  // '@'
        (0x1Fu8, HID_LEFT_SHIFT)
    } else if b == 0x23 {  // '#'
        (0x20u8, HID_LEFT_SHIFT)
    } else if b == 0x24 {  // '$'
        (0x21u8, HID_LEFT_SHIFT)
    } else if b == 0x25 {  // '%'
        (0x22u8, HID_LEFT_SHIFT)
    } else if b == 0x5E {  // '^'
        (0x23u8, HID_LEFT_SHIFT)
    } else if b == 0x26 {  // '&'
        (0x24u8, HID_LEFT_SHIFT)
    } else if b == 0x2A {  // '*'
        (0x25u8, HID_LEFT_SHIFT)
    } else if b == 0x28 {  // '('
        (0x26u8, HID_LEFT_SHIFT)
    } else if b == 0x29 {  // ')'
        (0x27u8, HID_LEFT_SHIFT)
    } else if b == 0x5F {  // '_'
        (0x2Du8, HID_LEFT_SHIFT)
    } else if b == 0x2B {  // '+'
        (0x2Eu8, HID_LEFT_SHIFT)
    } else if b == 0x7B {  // '{'
        (0x2Fu8, HID_LEFT_SHIFT)
    } else if b == 0x7D {  // '}'
        (0x30u8, HID_LEFT_SHIFT)
    } else if b == 0x7C {  // '|'
        (0x31u8, HID_LEFT_SHIFT)
    } else if b == 0x3A {  // ':'
        (0x33u8, HID_LEFT_SHIFT)
    } else if b == 0x22 {  // '"'
        (0x34u8, HID_LEFT_SHIFT)
    } else if b == 0x7E {  // '~'
        (0x35u8, HID_LEFT_SHIFT)
    } else if b == 0x3C {  // '<'
        (0x36u8, HID_LEFT_SHIFT)
    } else if b == 0x3E {  // '>'
        (0x37u8, HID_LEFT_SHIFT)
    } else if b == 0x3F {  // '?'
        (0x38u8, HID_LEFT_SHIFT)
    } else {
        (0u8, 0u8)
    }
}

/// The key strokes one clipboard byte turns into: nothing for a byte
/// without a HID usage, press and release for a plain key, and the pair
/// wrapped in shift for a shifted one.
pub open spec fn char_msgs(b: u8) -> Seq<ActMsg> {
    if b > 0x7F {
        Seq::<ActMsg>::empty()
    } else {
        let km = ascii_hid(b);
        if km.0 == 0 {
            Seq::<ActMsg>::empty()
        } else if km.1 != 0 {
            seq![
                ActMsg::HidKeyDown { key: km.1 },
                ActMsg::HidKeyDown { key: km.0 },
                ActMsg::HidKeyUp { key: km.0 },
                ActMsg::HidKeyUp { key: km.1 },
            ]
        } else {
            seq![ActMsg::HidKeyDown { key: km.0 }, ActMsg::HidKeyUp { key: km.0 }]
        }
    }
}

/// The key strokes a whole clipboard turns into; a zero byte ends the text.
pub open spec fn paste_msgs(data: Seq<u8>) -> Seq<ActMsg>
    decreases data.len(),
{
    if data.len() == 0 || data[0] == 0 {
        Seq::<ActMsg>::empty()
    } else {
        char_msgs(data[0]) + paste_msgs(data.skip(1))
    }
}

/// Extending a zero-free prefix by one byte appends that byte's strokes.
proof fn lemma_paste_msgs_snoc(data: Seq<u8>, i: int)
    requires
        0 <= i < data.len(),
        data[i] != 0,
        forall|j: int| 0 <= j < i ==> data[j] != 0,
    ensures
        paste_msgs(data.take(i + 1)) == paste_msgs(data.take(i)) + char_msgs(data[i]),
    decreases i,
{
    if i == 0 {
        assert(data.take(1)[0] == data[0]);
        assert(data.take(1).skip(1) =~= Seq::<u8>::empty());
        assert(paste_msgs(data.take(1)) == char_msgs(data.take(1)[0]) + paste_msgs(
            data.take(1).skip(1),
        ));
        assert(paste_msgs(data.take(1).skip(1)) == Seq::<ActMsg>::empty());
        assert(paste_msgs(data.take(0)) == Seq::<ActMsg>::empty());
        assert(char_msgs(data[0]) + Seq::<ActMsg>::empty() =~= char_msgs(data[0]));
        assert(Seq::<ActMsg>::empty() + char_msgs(data[0]) =~= char_msgs(data[0]));
    } else {
        lemma_paste_msgs_snoc(data.skip(1), i - 1);
        assert(data.take(i + 1)[0] == data[0]);
        assert(data.take(i)[0] == data[0]);
        assert(data.take(i + 1).skip(1) =~= data.skip(1).take(i));
        assert(data.take(i).skip(1) =~= data.skip(1).take(i - 1));
        assert(data.skip(1)[i - 1] == data[i]);
        assert(paste_msgs(data.take(i + 1)) == char_msgs(data[0]) + paste_msgs(
            data.skip(1).take(i),
        ));
        assert(paste_msgs(data.take(i)) == char_msgs(data[0]) + paste_msgs(
            data.skip(1).take(i - 1),
        ));
        assert(char_msgs(data[0]) + (paste_msgs(data.skip(1).take(i - 1)) + char_msgs(data[i]))
            =~= (char_msgs(data[0]) + paste_msgs(data.skip(1).take(i - 1))) + char_msgs(data[i]));
    }
}

/// A zero byte ends the strokes: nothing after it contributes.
proof fn lemma_paste_msgs_stops(data: Seq<u8>, i: int)
    requires
        0 <= i < data.len(),
        data[i] == 0,
        forall|j: int| 0 <= j < i ==> data[j] != 0,
    ensures
        paste_msgs(data) == paste_msgs(data.take(i)),
    decreases i,
{
    if i == 0 {
        assert(paste_msgs(data.take(0)) =~= Seq::<ActMsg>::empty());
    } else {
        lemma_paste_msgs_stops(data.skip(1), i - 1);
        assert(data.take(i)[0] == data[0]);
        assert(data.take(i).skip(1) =~= data.skip(1).take(i - 1));
    }
}

/// The whole clipboard turns into the strokes of its zero-free prefix.
proof fn lemma_paste_msgs_all(data: Seq<u8>)
    ensures
        paste_msgs(data) == paste_msgs(data.take(data.len() as int)),
{
    assert(data.take(data.len() as int) =~= data);
}

/// The paste trigger: turns clipboard bytes into key strokes for the
/// actuation mailbox.
pub struct PasteButton {
}

impl PasteButton {
    /// A paste trigger.
    pub fn new() -> (r: PasteButton) {
        PasteButton {  }
    }

    /// Enqueues the strokes for one clipboard byte, all of them or none:
    /// a half-typed stroke would wedge a key down for good. Reports
    /// whether the strokes were enqueued (trivially so for a byte that
    /// types nothing).
    pub fn send_char(&self, byte: u8, tx: &mut Mailbox) -> (r: bool)
        ensures
            final(tx).spec_capacity() == old(tx).spec_capacity(),
            r == (char_msgs(byte).len() == 0 || old(tx).contents().len() + char_msgs(byte).len()
                <= old(tx).spec_capacity()),
            r ==> final(tx).contents() == old(tx).contents() + char_msgs(byte),
            !r ==> final(tx).contents() == old(tx).contents(),
    {
        if byte > 0x7F {
            proof {
                assert(old(tx).contents() + char_msgs(byte) =~= old(tx).contents());
            }
            return true;
        }
        let (k, m) = ascii_to_hid(byte);
        if k == 0 {
            proof {
                assert(old(tx).contents() + char_msgs(byte) =~= old(tx).contents());
            }
            return true;
        }
        if m != 0 {
            if tx.len() > tx.capacity() || tx.capacity() - tx.len() < 4 {
                return false;
            }
            tx.send(ActMsg::HidKeyDown { key: m });
            tx.send(ActMsg::HidKeyDown { key: k });
            tx.send(ActMsg::HidKeyUp { key: k });
            tx.send(ActMsg::HidKeyUp { key: m });
            proof {
                assert(tx.contents() =~= old(tx).contents() + char_msgs(byte));
            }
            true
        } else {
            if tx.len() > tx.capacity() || tx.capacity() - tx.len() < 2 {
                return false;
            }
            tx.send(ActMsg::HidKeyDown { key: k });
            tx.send(ActMsg::HidKeyUp { key: k });
            proof {
                assert(tx.contents() =~= old(tx).contents() + char_msgs(byte));
            }
            true
        }
    }

    /// Types the clipboard text out: every byte up to the first zero, in
    /// order, stopping early only when the mailbox cannot take a whole
    /// character. When everything fits, exactly the clipboard's strokes
    /// are appended.
    pub fn paste_clipboard(&self, data: &[u8], tx: &mut Mailbox) -> (r: bool)
        ensures
            final(tx).spec_capacity() == old(tx).spec_capacity(),
            r ==> final(tx).contents() == old(tx).contents() + paste_msgs(data@),
    {
        let ghost cap = tx.spec_capacity();
        let mut i: usize = 0;
        while i < data.len()
            invariant
                i <= data@.len(),
                tx.spec_capacity() == cap,
                cap == old(tx).spec_capacity(),
                forall|j: int| 0 <= j < i ==> data@[j] != 0,
                tx.contents() == old(tx).contents() + paste_msgs(data@.take(i as int)),
            decreases data@.len() - i,
        {
            let b = data[i];
            if b == 0 {
                proof {
                    lemma_paste_msgs_stops(data@, i as int);
                }
                return true;
            }
            let sent = self.send_char(b, tx);
            if !sent {
                return false;
            }
            proof {
                lemma_paste_msgs_snoc(data@, i as int);
            }
            i += 1;
        }
        proof {
            lemma_paste_msgs_all(data@);
        }
        true
    }
}

/// The HID usage and modifier key for one ASCII byte.
pub fn ascii_to_hid(b: u8) -> (r: (u8, u8))
    ensures
        r == ascii_hid(b),
{
    if 0x61 <= b && b <= 0x7A {
        (b - 0x5D, 0)
    } else if 0x41 <= b && b <= 0x5A {
        (b - 0x3D, HID_LEFT_SHIFT)
    } else if 0x31 <= b && b <= 0x39 {
        (0x1E + (b - 0x31), 0)
    } else if b == 0x30 {
        (0x27, 0)
    } else if b == 0x0A {
        (0x28, 0)
    } else if b == 0x09 {
        (0x2B, 0)
    } else if b == 0x20 {
        (0x2C, 0)
    } else if b == 0x2D {
        (0x2D, 0)
    } else if b == 0x3D {
        (0x2E, 0)
    } else if b == 0x5B {
        (0x2F, 0)
    } else if b == 0x5D {
        (0x30, 0)
    } else if b == 0x5C {
        (0x31, 0)
    } else if b == 0x3B {
        (0x33, 0)
    } else if b == 0x27 {
        (0x34, 0)
    } else if b == 0x60 {
        (0x35, 0)
    } else if b == 0x2C {
        (0x36, 0)
    } else if b == 0x2E {
        (0x37, 0)
    } else if b == 0x2F {
        (0x38, 0)
    } else if b == 0x21 {
        (0x1E, HID_LEFT_SHIFT)
    } else if b == 0x40 {
        (0x1F, HID_LEFT_SHIFT)
    } else if b == 0x23 {
        (0x20, HID_LEFT_SHIFT)
    } else if b == 0x24 {
        (0x21, HID_LEFT_SHIFT)
    } else if b == 0x25 {
        (0x22, HID_LEFT_SHIFT)
    } else if b == 0x5E {
        (0x23, HID_LEFT_SHIFT)
    } else if b == 0x26 {
        (0x24, HID_LEFT_SHIFT)
    } else if b == 0x2A {
        (0x25, HID_LEFT_SHIFT)
    } else if b == 0x28 {
        (0x26, HID_LEFT_SHIFT)
    } else if b == 0x29 {
        (0x27, HID_LEFT_SHIFT)
    } else if b == 0x5F {
        (0x2D, HID_LEFT_SHIFT)
    } else if b == 0x2B {
        (0x2E, HID_LEFT_SHIFT)
    } else if b == 0x7B {
        (0x2F, HID_LEFT_SHIFT)
    } else if b == 0x7D {
        (0x30, HID_LEFT_SHIFT)
    } else if b == 0x7C {
        (0x31, HID_LEFT_SHIFT)
    } else if b == 0x3A {
        (0x33, HID_LEFT_SHIFT)
    } else if b == 0x22 {
        (0x34, HID_LEFT_SHIFT)
    } else if b == 0x7E {
        (0x35, HID_LEFT_SHIFT)
    } else if b == 0x3C {
        (0x36, HID_LEFT_SHIFT)
    } else if b == 0x3E {
        (0x37, HID_LEFT_SHIFT)
    } else if b == 0x3F {
        (0x38, HID_LEFT_SHIFT)
    } else {
        (0, 0)
    }
}

} // verus!
