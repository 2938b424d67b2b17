//! The keyboard report: a modifier byte and an `N`-key rollover slot array.
//!
//! Modifier keys fold into the modifier byte; every other key occupies one
//! slot. A key already held is never added twice; a full array rolls the
//! oldest key out; a release empties the key's slot and compacts the array
//! so the held keys stay in press order at the front.

use vstd::prelude::*;

verus! {

broadcast use vstd::prelude::Seq::<_>::lemma_filter_push, vstd::prelude::Seq::<_>::lemma_take_succ_push, vstd::prelude::Seq::<_>::lemma_filter_len, vstd::prelude::Seq::<_>::lemma_take_len;

/// The modifier bit a HID usage stands for, for the eight modifier keys.
pub open spec fn modifier_bit(key: u8) -> Option<u8> {
    if key == 0xE0 {
        Some(0x01u8)
    } else if key == 0xE1 {
        Some(0x02u8)
    } else if key == 0xE2 {
        Some(0x04u8)
    } else if key == 0xE3 {
        Some(0x08u8)
    } else if key == 0xE4 {
        Some(0x10u8)
    } else if key == 0xE5 {
        Some(0x20u8)
    } else if key == 0xE6 {
        Some(0x40u8)
    } else if key == 0xE7 {
        Some(0x80u8)
    } else {
        None
    }
}

/// Stable compaction: the non-zero slots in order, then zero padding back
/// to the original length.
pub open spec fn compacted(s: Seq<u8>) -> Seq<u8> {
    let nz = s.filter(|k: u8| k != 0);
    nz + Seq::new((s.len() - nz.len()) as nat, |i: int| 0u8)
}

/// How the slot array answers a key press: a key already held changes
/// nothing; otherwise the key lands in the first free slot; with no free
/// slot the oldest key rolls out and the new one is appended.
pub open spec fn spec_pressed(keys: Seq<u8>, key: u8, result: Seq<u8>) -> bool {
    if keys.contains(key) {
        result == keys
    } else if keys.contains(0) {
        exists|i: int|
            #![auto]
            0 <= i < keys.len() && keys[i] == 0 && (forall|j: int| 0 <= j < i ==> keys[j] != 0)
                && result == keys.update(i, key)
    } else if keys.len() == 0 {
        result == keys
    } else {
        result == keys.skip(1).push(key)
    }
}

/// How the slot array answers a release: the first slot holding the key is
/// emptied, then the array is compacted.
pub open spec fn spec_released(keys: Seq<u8>, key: u8, result: Seq<u8>) -> bool {
    if keys.contains(key) {
        exists|i: int|
            #![auto]
            0 <= i < keys.len() && keys[i] == key && (forall|j: int| 0 <= j < i ==> keys[j] != key)
                && result == compacted(keys.update(i, 0))
    } else {
        result == compacted(keys)
    }
}

/// A press has exactly one outcome: the free slot it names is the first
/// one, so any two arrays satisfying the press relation are equal.
pub proof fn lemma_pressed_functional(keys: Seq<u8>, key: u8, r1: Seq<u8>, r2: Seq<u8>)
    requires
        spec_pressed(keys, key, r1),
        spec_pressed(keys, key, r2),
    ensures
        r1 == r2,
{
    if !keys.contains(key) && keys.contains(0) {
        let i1 = choose|i: int|
            #![auto]
            0 <= i < keys.len() && keys[i] == 0 && (forall|j: int| 0 <= j < i ==> keys[j] != 0)
                && r1 == keys.update(i, key);
        let i2 = choose|i: int|
            #![auto]
            0 <= i < keys.len() && keys[i] == 0 && (forall|j: int| 0 <= j < i ==> keys[j] != 0)
                && r2 == keys.update(i, key);
        if i1 < i2 {
            assert(keys[i1] != 0);
        }
        if i2 < i1 {
            assert(keys[i2] != 0);
        }
        assert(i1 == i2);
    }
}

/// A release has exactly one outcome: the slot it empties is the first one
/// holding the key, so any two arrays satisfying the release relation are
/// equal.
pub proof fn lemma_released_functional(keys: Seq<u8>, key: u8, r1: Seq<u8>, r2: Seq<u8>)
    requires
        spec_released(keys, key, r1),
        spec_released(keys, key, r2),
    ensures
        r1 == r2,
{
    if keys.contains(key) {
        let i1 = choose|i: int|
            #![auto]
            0 <= i < keys.len() && keys[i] == key && (forall|j: int| 0 <= j < i ==> keys[j] != key)
                && r1 == compacted(keys.update(i, 0));
        let i2 = choose|i: int|
            #![auto]
            0 <= i < keys.len() && keys[i] == key && (forall|j: int| 0 <= j < i ==> keys[j] != key)
                && r2 == compacted(keys.update(i, 0));
        if i1 < i2 {
            assert(keys[i1] != key);
        }
        if i2 < i1 {
            assert(keys[i2] != key);
        }
        assert(i1 == i2);
    }
}

/// The keyboard state behind the report.
pub struct KeyboardReport<const N: usize> {
    modifier: u8,
    keycode: Vec<u8>,
}

impl<const N: usize> KeyboardReport<N> {
    #[verifier::type_invariant]
    spec fn wf(self) -> bool {
        self.keycode@.len() == N
    }

    /// The modifier byte.
    pub closed spec fn spec_modifier(&self) -> u8 {
        self.modifier
    }

    /// The key slots, in press order at the front.
    pub closed spec fn spec_keys(&self) -> Seq<u8> {
        self.keycode@
    }

    /// Nothing held.
    pub fn new() -> (r: KeyboardReport<N>)
        ensures
            r.spec_modifier() == 0,
            r.spec_keys().len() == N,
            forall|j: int| 0 <= j < N ==> r.spec_keys()[j] == 0,
    {
        let mut keycode: Vec<u8> = Vec::new();
        while keycode.len() < N
            invariant
                keycode@.len() <= N,
                forall|j: int| 0 <= j < keycode@.len() ==> keycode@[j] == 0,
            decreases N - keycode@.len(),
        {
            keycode.push(0);
        }
        KeyboardReport { modifier: 0, keycode }
    }

    /// The modifier bit for a key, if it is a modifier key.
    pub fn get_modifier(&self, key: u8) -> (r: Option<u8>)
        ensures
            r == modifier_bit(key),
    {
        if key == 0xE0 {
            Some(0x01)
        } else if key == 0xE1 {
            Some(0x02)
        } else if key == 0xE2 {
            Some(0x04)
        } else if key == 0xE3 {
            Some(0x08)
        } else if key == 0xE4 {
            Some(0x10)
        } else if key == 0xE5 {
            Some(0x20)
        } else if key == 0xE6 {
            Some(0x40)
        } else if key == 0xE7 {
            Some(0x80)
        } else {
            None
        }
    }

    /// Presses a key.
    pub fn press(&mut self, key: u8)
        ensures
            final(self).spec_keys().len() == N,
            match modifier_bit(key) {
                Some(b) => final(self).spec_modifier() == (old(self).spec_modifier() | b) && final(self).spec_keys() == old(self).spec_keys(),
                None => final(self).spec_modifier() == old(self).spec_modifier() && spec_pressed(
                    old(self).spec_keys(),
                    key,
                    final(self).spec_keys(),
                ),
            },
    {
        proof {
            use_type_invariant(&*self);
        }
        match self.get_modifier(key) {
            Some(m) => {
                self.modifier = self.modifier | m;
            },
            None => {
                let n = self.keycode.len();
                let mut i: usize = 0;
                while i < n
                    invariant
                        modifier_bit(key) is None,
                        i <= n,
                        n == N,
                        n == self.keycode@.len(),
                        *self == *old(self),
                        forall|j: int| 0 <= j < i ==> self.keycode@[j] != key,
                    decreases n - i,
                {
                    if self.keycode[i] == key {
                        proof {
                            assert(old(self).spec_keys()[i as int] == key);
                            assert(old(self).spec_keys().contains(key));
                        }
                        return ;
                    }
                    i += 1;
                }
                let mut i: usize = 0;
                while i < n
                    invariant
                        modifier_bit(key) is None,
                        i <= n,
                        n == N,
                        n == self.keycode@.len(),
                        *self == *old(self),
                        forall|j: int| 0 <= j < n ==> self.keycode@[j] != key,
                        forall|j: int| 0 <= j < i ==> self.keycode@[j] != 0,
                    decreases n - i,
                {
                    if self.keycode[i] == 0 {
                        proof {
                            assert(old(self).spec_keys()[i as int] == 0);
                            assert(old(self).spec_keys().contains(0));
                            assert(!old(self).spec_keys().contains(key));
                        }
                        self.keycode[i] = key;
                        proof {
                            assert(self.keycode@ =~= old(self).spec_keys().update(i as int, key));
                        }
                        return ;
                    }
                    i += 1;
                }
                proof {
                    assert(!old(self).spec_keys().contains(key));
                    assert(!old(self).spec_keys().contains(0));
                }
                if n == 0 {
                    return ;
                }
                let ghost keys0 = self.keycode@;
                let mut i: usize = 1;
                while i < n
                    invariant
                        modifier_bit(key) is None,
                        1 <= i <= n,
                        n == N,
                        n == self.keycode@.len(),
                        n == keys0.len(),
                        keys0 == old(self).spec_keys(),
                        self.modifier == old(self).spec_modifier(),
                        !old(self).spec_keys().contains(key),
                        !old(self).spec_keys().contains(0),
                        forall|j: int| 0 <= j < i - 1 ==> self.keycode@[j] == keys0[j + 1],
                        forall|j: int| i - 1 <= j < n ==> self.keycode@[j] == keys0[j],
                    decreases n - i,
                {
                    let v = self.keycode[i];
                    self.keycode[i - 1] = v;
                    i += 1;
                }
                self.keycode[n - 1] = key;
                proof {
                    assert(self.keycode@ =~= keys0.skip(1).push(key));
                }
            },
        }
    }

    /// Releases a key.
    pub fn release(&mut self, key: u8)
        ensures
            final(self).spec_keys().len() == N,
            match modifier_bit(key) {
                Some(b) => final(self).spec_modifier() == (old(self).spec_modifier() & !b) && final(self).spec_keys() == old(self).spec_keys(),
                None => final(self).spec_modifier() == old(self).spec_modifier() && spec_released(
                    old(self).spec_keys(),
                    key,
                    final(self).spec_keys(),
                ),
            },
    {
        proof {
            use_type_invariant(&*self);
        }
        match self.get_modifier(key) {
            Some(m) => {
                self.modifier = self.modifier & !m;
            },
            None => {
                let n = self.keycode.len();
                let mut idx: usize = n;
                let mut i: usize = 0;
                while i < n
                    invariant
                        modifier_bit(key) is None,
                        i <= n,
                        idx <= n,
                        n == N,
                        n == self.keycode@.len(),
                        *self == *old(self),
                        idx == n ==> forall|j: int| 0 <= j < i ==> self.keycode@[j] != key,
                        idx < n ==> idx < i && self.keycode@[idx as int] == key && (forall|j: int|
                            0 <= j < idx ==> self.keycode@[j] != key),
                    decreases n - i,
                {
                    if idx == n && self.keycode[i] == key {
                        idx = i;
                    }
                    i += 1;
                }
                if idx < n {
                    self.keycode[idx] = 0;
                }
                let ghost cleared = self.keycode@;
                let ghost origin =
                    (idx < n ==> idx < old(self).spec_keys().len()
                        && old(self).spec_keys()[idx as int] == key
                        && (forall|j: int| 0 <= j < idx ==> old(self).spec_keys()[j] != key)
                        && cleared == old(self).spec_keys().update(idx as int, 0))
                    && (idx == n ==> (forall|j: int|
                        0 <= j < n ==> old(self).spec_keys()[j] != key)
                        && cleared == old(self).spec_keys());
                let mut out: Vec<u8> = Vec::new();
                let mut i: usize = 0;
                while i < n
                    invariant
                        modifier_bit(key) is None,
                        origin == ((idx < n ==> idx < old(self).spec_keys().len()
                            && old(self).spec_keys()[idx as int] == key
                            && (forall|j: int|
                                0 <= j < idx ==> old(self).spec_keys()[j] != key)
                            && cleared == old(self).spec_keys().update(idx as int, 0))
                            && (idx == n ==> (forall|j: int|
                                0 <= j < n ==> old(self).spec_keys()[j] != key)
                                && cleared == old(self).spec_keys())),
                        origin,
                        idx <= n,
                        i <= n,
                        n == N,
                        n == old(self).spec_keys().len(),
                        n == self.keycode@.len(),
                        self.keycode@ == cleared,
                        self.modifier == old(self).spec_modifier(),
                        out@ == cleared.take(i as int).filter(|k: u8| k != 0),
                    decreases n - i,
                {
                    let v = self.keycode[i];
                    if v != 0 {
                        out.push(v);
                    }
                    i += 1;
                }
                proof {
                    assert(cleared.take(n as int) =~= cleared);
                }
                let nz_len = out.len();
                proof {
                    assert(out@.take(nz_len as int) =~= out@);
                }
                while out.len() < n
                    invariant
                        modifier_bit(key) is None,
                        origin == ((idx < n ==> idx < old(self).spec_keys().len()
                            && old(self).spec_keys()[idx as int] == key
                            && (forall|j: int|
                                0 <= j < idx ==> old(self).spec_keys()[j] != key)
                            && cleared == old(self).spec_keys().update(idx as int, 0))
                            && (idx == n ==> (forall|j: int|
                                0 <= j < n ==> old(self).spec_keys()[j] != key)
                                && cleared == old(self).spec_keys())),
                        origin,
                        idx <= n,
                        n == N,
                        n == old(self).spec_keys().len(),
                        n == self.keycode@.len(),
                        self.keycode@ == cleared,
                        self.modifier == old(self).spec_modifier(),
                        nz_len == cleared.filter(|k: u8| k != 0).len(),
                        nz_len <= out@.len() <= n,
                        out@.take(nz_len as int) == cleared.filter(|k: u8| k != 0),
                        forall|j: int| nz_len <= j < out@.len() ==> out@[j] == 0,
                    decreases n - out@.len(),
                {
                    out.push(0);
                }
                self.keycode = out;
                proof {
                    assert(self.keycode@ =~= compacted(cleared));
                    if idx < n {
                        assert(old(self).spec_keys().contains(key));
                    } else {
                        assert(!old(self).spec_keys().contains(key));
                    }
                }
            },
        }
    }

    /// Releases everything.
    pub fn clear(&mut self)
        ensures
            final(self).spec_modifier() == 0,
            final(self).spec_keys().len() == N,
            forall|j: int| 0 <= j < N ==> final(self).spec_keys()[j] == 0,
    {
        proof {
            use_type_invariant(&*self);
        }
        self.modifier = 0;
        let mut keycode: Vec<u8> = Vec::new();
        while keycode.len() < N
            invariant
                keycode@.len() <= N,
                forall|j: int| 0 <= j < keycode@.len() ==> keycode@[j] == 0,
            decreases N - keycode@.len(),
        {
            keycode.push(0);
        }
        self.keycode = keycode;
    }

    /// The modifier byte to report.
    pub fn modifier(&self) -> (r: u8)
        ensures
            r == self.spec_modifier(),
    {
        self.modifier
    }

    /// The key slots to report.
    pub fn keycodes(&self) -> (r: &Vec<u8>)
        ensures
            r@ == self.spec_keys(),
    {
        &self.keycode
    }
}

} // verus!
