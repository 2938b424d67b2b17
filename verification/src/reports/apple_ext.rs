//! The vendor-extension report for the keys that plain HID keyboards lack.

use vstd::prelude::*;

verus! {

/// The extension-report state; `code` is what the next report carries,
/// zero meaning nothing held.
pub struct AppleExtReport {
    /// The held extension code.
    pub code: u8,
}

impl AppleExtReport {
    /// Nothing held.
    pub fn new() -> (r: AppleExtReport)
        ensures
            r.code == 0,
    {
        AppleExtReport { code: 0 }
    }

    /// Holds an extension code; returns the code to report.
    pub fn press(&mut self, code: u8) -> (r: u8)
        ensures
            final(self).code == code,
            r == code,
    {
        self.code = code;
        self.code
    }

    /// Releases the held code; returns the code to report.
    pub fn release(&mut self) -> (r: u8)
        ensures
            final(self).code == 0,
            r == 0,
    {
        self.code = 0;
        self.code
    }

    /// Releases everything; returns the code to report.
    pub fn clear(&mut self) -> (r: u8)
        ensures
            final(self).code == 0,
            r == 0,
    {
        self.code = 0;
        self.code
    }
}

} // verus!
