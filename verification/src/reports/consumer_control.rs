//! The consumer-control report: one media/consumer usage code at a time.

use vstd::prelude::*;

verus! {

/// The consumer-control state; `code` is what the next report carries,
/// zero meaning nothing held.
pub struct ConsumerControlReport {
    /// The held consumer usage code.
    pub code: u16,
}

impl ConsumerControlReport {
    /// Nothing held.
    pub fn new() -> (r: ConsumerControlReport)
        ensures
            r.code == 0,
    {
        ConsumerControlReport { code: 0 }
    }

    /// Holds a usage code; returns the code to report.
    pub fn press(&mut self, code: u16) -> (r: u16)
        ensures
            final(self).code == code,
            r == code,
    {
        self.code = code;
        self.code
    }

    /// Releases the held code; returns the code to report.
    pub fn release(&mut self) -> (r: u16)
        ensures
            final(self).code == 0,
            r == 0,
    {
        self.code = 0;
        self.code
    }

    /// Releases everything; returns the code to report.
    pub fn clear(&mut self) -> (r: u16)
        ensures
            final(self).code == 0,
            r == 0,
    {
        self.code = 0;
        self.code
    }
}

} // verus!
