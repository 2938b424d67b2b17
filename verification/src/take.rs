//! The bounded reader that fences one frame off from the byte stream.
//!
//! A `Take` is constructed from a declared frame length and hands out at most
//! that many bytes of an underlying `PacketReader`; its limit never grows, and
//! once it reaches zero no read touches the stream at all. Field readers past
//! the limit fail with `InsufficientDataError` instead of straying into the
//! next frame.

use vstd::prelude::*;

use crate::error::PacketError;
use crate::packet_io::PacketReader;
use crate::wire::{be16_of, be32_of, signed16, signed8};

verus! {

/// Bookkeeping for the bytes still owed to the current frame.
pub struct Take {
    limit: u64,
}

impl Take {
    /// How many frame bytes may still be read.
    pub closed spec fn spec_limit(&self) -> u64 {
        self.limit
    }

    /// Fences off the next `limit` bytes of the stream.
    pub fn new(limit: u64) -> (t: Take)
        ensures
            t.spec_limit() == limit,
    {
        Take { limit }
    }

    /// How many frame bytes may still be read.
    pub fn limit(&self) -> (r: u64)
        ensures
            r == self.spec_limit(),
    {
        self.limit
    }

    /// Reads exactly `n` bytes of the frame.
    pub fn read_exact<S: PacketReader>(&mut self, s: &mut S, n: usize) -> (r: Result<
        Vec<u8>,
        PacketError,
    >)
        ensures
            final(s).written() == old(s).written(),
            final(self).spec_limit() <= old(self).spec_limit(),
            n > old(self).spec_limit() ==> r == Err::<Vec<u8>, PacketError>(
                PacketError::InsufficientDataError,
            ) && *final(s) == *old(s) && final(self).spec_limit() == old(self).spec_limit(),
            match r {
                Ok(v) => n <= old(self).spec_limit() && old(s).pending().len() >= n && v@ == old(s).pending().take(n as int) && final(s).pending() == old(s).pending().skip(n as int)
                    && final(self).spec_limit() == old(self).spec_limit() - n,
                Err(e) => !(e is PacketTooSmall),
            },
    {
        if n as u64 > self.limit {
            return Err(PacketError::InsufficientDataError);
        }
        let v = s.read_exact_vec(n)?;
        self.limit = self.limit - n as u64;
        Ok(v)
    }

    /// Reads one unsigned byte of the frame.
    pub fn read_u8<S: PacketReader>(&mut self, s: &mut S) -> (r: Result<u8, PacketError>)
        ensures
            final(s).written() == old(s).written(),
            final(self).spec_limit() <= old(self).spec_limit(),
            match r {
                Ok(b) => 1 <= old(self).spec_limit() && old(s).pending().len() >= 1 && b == old(s).pending()[0] && final(s).pending() == old(s).pending().skip(1) && final(self).spec_limit() == old(self).spec_limit() - 1,
                Err(e) => !(e is PacketTooSmall),
            },
    {
        let v = self.read_exact(s, 1)?;
        Ok(v[0])
    }

    /// Reads one signed byte of the frame.
    pub fn read_i8<S: PacketReader>(&mut self, s: &mut S) -> (r: Result<i8, PacketError>)
        ensures
            final(s).written() == old(s).written(),
            final(self).spec_limit() <= old(self).spec_limit(),
            match r {
                Ok(b) => 1 <= old(self).spec_limit() && old(s).pending().len() >= 1 && b
                    == signed8(old(s).pending()[0] as int) && final(s).pending() == old(s).pending().skip(1) && final(self).spec_limit() == old(self).spec_limit() - 1,
                Err(e) => !(e is PacketTooSmall),
            },
    {
        let v = self.read_exact(s, 1)?;
        Ok(crate::wire::i8_from_byte(v[0]))
    }

    /// Reads a 2-byte big-endian unsigned field of the frame.
    pub fn read_u16<S: PacketReader>(&mut self, s: &mut S) -> (r: Result<u16, PacketError>)
        ensures
            final(s).written() == old(s).written(),
            final(self).spec_limit() <= old(self).spec_limit(),
            match r {
                Ok(b) => 2 <= old(self).spec_limit() && old(s).pending().len() >= 2 && b
                    == be16_of(old(s).pending()) && final(s).pending() == old(s).pending().skip(2)
                    && final(self).spec_limit() == old(self).spec_limit() - 2,
                Err(e) => !(e is PacketTooSmall),
            },
    {
        let v = self.read_exact(s, 2)?;
        Ok(crate::wire::u16_from_be(v[0], v[1]))
    }

    /// Reads a 2-byte big-endian signed field of the frame.
    pub fn read_i16<S: PacketReader>(&mut self, s: &mut S) -> (r: Result<i16, PacketError>)
        ensures
            final(s).written() == old(s).written(),
            final(self).spec_limit() <= old(self).spec_limit(),
            match r {
                Ok(b) => 2 <= old(self).spec_limit() && old(s).pending().len() >= 2 && b
                    == signed16(be16_of(old(s).pending())) && final(s).pending() == old(s).pending().skip(2) && final(self).spec_limit() == old(self).spec_limit() - 2,
                Err(e) => !(e is PacketTooSmall),
            },
    {
        let v = self.read_exact(s, 2)?;
        Ok(crate::wire::i16_from_be(v[0], v[1]))
    }

    /// Reads a 4-byte big-endian unsigned field of the frame.
    pub fn read_u32<S: PacketReader>(&mut self, s: &mut S) -> (r: Result<u32, PacketError>)
        ensures
            final(s).written() == old(s).written(),
            final(self).spec_limit() <= old(self).spec_limit(),
            match r {
                Ok(b) => 4 <= old(self).spec_limit() && old(s).pending().len() >= 4 && b
                    == be32_of(old(s).pending()) && final(s).pending() == old(s).pending().skip(4)
                    && final(self).spec_limit() == old(self).spec_limit() - 4,
                Err(e) => !(e is PacketTooSmall),
            },
    {
        let v = self.read_exact(s, 4)?;
        Ok(crate::wire::u32_from_be(v[0], v[1], v[2], v[3]))
    }

    /// Drains and drops every byte the frame still owes.
    pub fn discard_all<S: PacketReader>(&mut self, s: &mut S) -> (r: Result<(), PacketError>)
        ensures
            final(s).written() == old(s).written(),
            final(self).spec_limit() <= old(self).spec_limit(),
            match r {
                Ok(_) => old(s).pending().len() >= old(self).spec_limit() && final(s).pending()
                    == old(s).pending().skip(old(self).spec_limit() as int) && final(self).spec_limit() == 0,
                Err(e) => !(e is PacketTooSmall),
            },
    {
        while self.limit > 0
            invariant
                s.written() == old(s).written(),
                self.spec_limit() <= old(self).spec_limit(),
                old(s).pending().len() >= old(self).spec_limit() - self.spec_limit(),
                s.pending() == old(s).pending().skip(
                    old(self).spec_limit() - self.spec_limit(),
                ),
            decreases self.spec_limit(),
        {
            let step: usize = if self.limit < 1024 {
                self.limit as usize
            } else {
                1024
            };
            let v = s.read_up_to(step)?;
            if v.len() == 0 {
                return Err(PacketError::InsufficientDataError);
            }
            proof {
                vstd::seq_lib::lemma_seq_skip_of_skip(
                    old(s).pending(),
                    old(self).spec_limit() - self.spec_limit(),
                    v@.len() as int,
                );
            }
            self.limit = self.limit - v.len() as u64;
        }
        Ok(())
    }
}

} // verus!
