//! Physical-button debouncing and long-press timing, free of any pin I/O.
//!
//! The caller samples the pin level and the clock and feeds both into
//! `poll`; the debouncer shifts each sample into a history word and decides
//! when the button truly rose or fell and when a long press repeats.

use vstd::prelude::*;

verus! {

/// The debounced event reported to a callback.
#[derive(Clone, Copy, Debug, PartialEq, Eq, Structural)]
pub enum ButtonState {
    Up,
    Down,
    Held,
}

/// Implemented by whoever wants debounced button events.
pub trait ButtonCallback {
    /// One debounced event arrived.
    fn on_button_event(&mut self, state: ButtonState);
}

/// The history bits a state decision looks at: the newest six samples and
/// the oldest four, with a gap that rides out contact bounce.
pub const MASK: u16 = 0b1111000000111111;

/// How often a held button repeats its event.
pub const BUTTON_LONG_PRESS_REPEAT_MS: u32 = 1000;

/// How long a press must last to count as held.
pub const BUTTON_LONG_PRESS_DURATION_MS: u32 = 500;

/// The sample history says the level just settled high: six high samples
/// after low ones.
pub open spec fn rose_cond(history: u16) -> bool {
    history & MASK == 0b0000000000111111u16
}

/// The sample history says the level just settled low: four stale high
/// samples followed by low ones.
pub open spec fn fell_cond(history: u16) -> bool {
    history & MASK == 0b1111000000000000u16
}

/// Addition on the millisecond clock that sticks at the top instead of
/// wrapping.
pub open spec fn sat_add32(a: int, b: int) -> int {
    if a + b > u32::MAX {
        u32::MAX as int
    } else {
        a + b
    }
}

/// The mathematical state of one debouncer.
pub struct DebounceView {
    pub inverted: bool,
    pub history: u16,
    pub down_time: u32,
    pub next_long_time: u32,
}

/// What one polling step does: shift the sample in, then report `Up` on a
/// settled release, `Held` once a standing press outlives the long-press
/// deadline, or `Down` on a settled new press.
pub open spec fn spec_poll(d: DebounceView, level: bool, now_ms: u32) -> (DebounceView, Option<
    ButtonState,
>) {
    let shifted = (d.history << 1) | (if level {
        1u16
    } else {
        0u16
    });
    let d1 = DebounceView { history: shifted, ..d };
    let up_now = if d1.inverted {
        rose_cond(d1.history)
    } else {
        fell_cond(d1.history)
    };
    let down_now = if d1.inverted {
        fell_cond(d1.history)
    } else {
        rose_cond(d1.history)
    };
    if up_now {
        (
            DebounceView {
                history: if d1.inverted {
                    0xFFFFu16
                } else {
                    0u16
                },
                down_time: 0,
                ..d1
            },
            Some(ButtonState::Up),
        )
    } else if d1.down_time > 0 && now_ms > d1.next_long_time {
        (
            DebounceView {
                next_long_time: sat_add32(
                    d1.next_long_time as int,
                    BUTTON_LONG_PRESS_REPEAT_MS as int,
                ) as u32,
                ..d1
            },
            Some(ButtonState::Held),
        )
    } else if down_now {
        let d2 = DebounceView {
            history: if d1.inverted {
                0u16
            } else {
                0xFFFFu16
            },
            ..d1
        };
        if d2.down_time == 0 {
            (
                DebounceView {
                    down_time: now_ms,
                    next_long_time: sat_add32(
                        d2.next_long_time as int,
                        BUTTON_LONG_PRESS_DURATION_MS as int,
                    ) as u32,
                    ..d2
                },
                Some(ButtonState::Down),
            )
        } else {
            (d2, None)
        }
    } else {
        (d1, None)
    }
}

/// The debouncer for one button.
pub struct Debounce {
    inverted: bool,
    history: u16,
    down_time: u32,
    next_long_time: u32,
}

impl Debounce {
    /// The mathematical state.
    pub closed spec fn model(&self) -> DebounceView {
        DebounceView {
            inverted: self.inverted,
            history: self.history,
            down_time: self.down_time,
            next_long_time: self.next_long_time,
        }
    }

    /// A fresh debouncer; `inverted` flips the pin's sense.
    pub fn new(inverted: bool) -> (r: Debounce)
        ensures
            r.model() == (DebounceView { inverted, history: 0, down_time: 0, next_long_time: 0 }),
    {
        Debounce { inverted, history: 0, down_time: 0, next_long_time: 0 }
    }

    /// Shifts one raw sample into the history.
    pub fn update(&mut self, level: bool)
        ensures
            final(self).model() == (DebounceView {
                history: (old(self).model().history << 1) | (if level {
                    1u16
                } else {
                    0u16
                }),
                ..old(self).model()
            }),
    {
        self.history = (self.history << 1) | (if level {
            1
        } else {
            0
        });
    }

    /// Did the level just settle high? Latches the history when it did.
    pub fn rose(&mut self) -> (r: bool)
        ensures
            r == rose_cond(old(self).model().history),
            final(self).model() == (DebounceView {
                history: if r {
                    0xFFFFu16
                } else {
                    old(self).model().history
                },
                ..old(self).model()
            }),
    {
        if self.history & MASK == 0b0000000000111111 {
            self.history = 0xFFFF;
            true
        } else {
            false
        }
    }

    /// Did the level just settle low? Latches the history when it did.
    pub fn fell(&mut self) -> (r: bool)
        ensures
            r == fell_cond(old(self).model().history),
            final(self).model() == (DebounceView {
                history: if r {
                    0u16
                } else {
                    old(self).model().history
                },
                ..old(self).model()
            }),
    {
        if self.history & MASK == 0b1111000000000000 {
            self.history = 0;
            true
        } else {
            false
        }
    }

    /// Did the button just go down, honouring the pin's sense?
    pub fn button_down(&mut self) -> (r: bool)
        ensures
            r == (if old(self).model().inverted {
                fell_cond(old(self).model().history)
            } else {
                rose_cond(old(self).model().history)
            }),
            final(self).model() == (DebounceView {
                history: if !r {
                    old(self).model().history
                } else if old(self).model().inverted {
                    0u16
                } else {
                    0xFFFFu16
                },
                ..old(self).model()
            }),
    {
        if self.inverted {
            self.fell()
        } else {
            self.rose()
        }
    }

    /// Did the button just go up, honouring the pin's sense?
    pub fn button_up(&mut self) -> (r: bool)
        ensures
            r == (if old(self).model().inverted {
                rose_cond(old(self).model().history)
            } else {
                fell_cond(old(self).model().history)
            }),
            final(self).model() == (DebounceView {
                history: if !r {
                    old(self).model().history
                } else if old(self).model().inverted {
                    0xFFFFu16
                } else {
                    0u16
                },
                ..old(self).model()
            }),
    {
        if self.inverted {
            self.rose()
        } else {
            self.fell()
        }
    }

    /// One polling step: feeds a sampled level and the clock, and hands
    /// back the event to deliver, exactly as `spec_poll` says.
    pub fn poll(&mut self, level: bool, now_ms: u32) -> (r: Option<ButtonState>)
        ensures
            (final(self).model(), r) == spec_poll(old(self).model(), level, now_ms),
    {
        self.update(level);
        if self.button_up() {
            self.down_time = 0;
            Some(ButtonState::Up)
        } else if self.down_time > 0 && now_ms > self.next_long_time {
            self.next_long_time = sat_add32_exec(
                self.next_long_time,
                BUTTON_LONG_PRESS_REPEAT_MS,
            );
            Some(ButtonState::Held)
        } else if self.button_down() {
            if self.down_time == 0 {
                self.down_time = now_ms;
                self.next_long_time = sat_add32_exec(
                    self.next_long_time,
                    BUTTON_LONG_PRESS_DURATION_MS,
                );
                Some(ButtonState::Down)
            } else {
                None
            }
        } else {
            None
        }
    }
}

/// Saturating addition on the millisecond clock.
fn sat_add32_exec(a: u32, b: u32) -> (r: u32)
    ensures
        r == sat_add32(a as int, b as int),
{
    if a > u32::MAX - b {
        u32::MAX
    } else {
        a + b
    }
}

} // verus!
