//! Byte-stream capability traits of the protocol engine.
//!
//! `PacketReader` abstracts the inbound byte stream and `PacketWriter` the
//! outbound one. The ghost views `pending()` and `written()` model the bytes
//! the stream will deliver and the bytes handed to it so far; every field
//! reader is specified against those views. `MemReader` and `MemWriter` are
//! the verified in-memory transports; a socket-backed transport implements
//! the same traits outside the verified core and must honour these contracts.

use vstd::prelude::*;

use crate::error::PacketError;
use crate::wire::{be16_of, be32_of, signed16, signed8, u16_from_be, u32_from_be, i16_from_be,
    i8_from_byte};

verus! {

/// The ghost model of one transport: what it will deliver and what it was
/// handed. A read-only transport has an empty, constant `written()`; a
/// write-only one an empty, constant `pending()`.
pub trait StreamModel: Sized {
    /// The bytes this transport has yet to deliver, in order. The default
    /// is an empty model, for transports outside the verified world.
    open spec fn pending(&self) -> Seq<u8> {
        Seq::<u8>::empty()
    }

    /// All bytes handed to this transport so far, in order. The default is
    /// an empty model, for transports outside the verified world.
    open spec fn written(&self) -> Seq<u8> {
        Seq::<u8>::empty()
    }
}

/// A source of protocol bytes.
///
/// `Ok` results always deliver a prefix of `pending()` and advance the view
/// past it; an `Err` makes no promise, since a transport may fail at any
/// moment and its state is then unusable.
pub trait PacketReader: StreamModel {
    /// Reads exactly `n` bytes.
    fn read_exact_vec(&mut self, n: usize) -> (r: Result<Vec<u8>, PacketError>)
        ensures
            final(self).written() == old(self).written(),
            match r {
                Ok(v) => old(self).pending().len() >= n
                    && v@ == old(self).pending().take(n as int)
                    && final(self).pending() == old(self).pending().skip(n as int),
                Err(e) => !(e is PacketTooSmall),
            },
    ;

    /// Reads at most `n` bytes, fewer only when the stream is near its end.
    fn read_up_to(&mut self, n: usize) -> (r: Result<Vec<u8>, PacketError>)
        ensures
            final(self).written() == old(self).written(),
            match r {
                Ok(v) => v@.len() <= n
                    && v@.len() <= old(self).pending().len()
                    && v@ == old(self).pending().take(v@.len() as int)
                    && final(self).pending() == old(self).pending().skip(v@.len() as int)
                    && (v@.len() < n ==> v@.len() == old(self).pending().len()),
                Err(e) => !(e is PacketTooSmall),
            },
    ;

    /// Reads and drops everything until the end of the stream.
    fn drain(&mut self) -> (r: Result<(), PacketError>)
        ensures
            final(self).written() == old(self).written(),
            r is Ok ==> final(self).pending().len() == 0,
            r matches Err(e) ==> !(e is PacketTooSmall),
    ;

    /// Reads one unsigned byte.
    fn read_u8(&mut self) -> (r: Result<u8, PacketError>)
        ensures
            final(self).written() == old(self).written(),
            match r {
                Ok(b) => old(self).pending().len() >= 1
                    && b == old(self).pending()[0]
                    && final(self).pending() == old(self).pending().skip(1),
                Err(e) => !(e is PacketTooSmall),
            },
    {
        let v = self.read_exact_vec(1)?;
        Ok(v[0])
    }

    /// Reads one signed byte.
    fn read_i8(&mut self) -> (r: Result<i8, PacketError>)
        ensures
            final(self).written() == old(self).written(),
            match r {
                Ok(b) => old(self).pending().len() >= 1
                    && b == signed8(old(self).pending()[0] as int)
                    && final(self).pending() == old(self).pending().skip(1),
                Err(e) => !(e is PacketTooSmall),
            },
    {
        let v = self.read_exact_vec(1)?;
        Ok(i8_from_byte(v[0]))
    }

    /// Reads a 2-byte big-endian unsigned field.
    fn read_u16(&mut self) -> (r: Result<u16, PacketError>)
        ensures
            final(self).written() == old(self).written(),
            match r {
                Ok(b) => old(self).pending().len() >= 2
                    && b == be16_of(old(self).pending())
                    && final(self).pending() == old(self).pending().skip(2),
                Err(e) => !(e is PacketTooSmall),
            },
    {
        let v = self.read_exact_vec(2)?;
        Ok(u16_from_be(v[0], v[1]))
    }

    /// Reads a 2-byte big-endian signed field.
    fn read_i16(&mut self) -> (r: Result<i16, PacketError>)
        ensures
            final(self).written() == old(self).written(),
            match r {
                Ok(b) => old(self).pending().len() >= 2
                    && b == signed16(be16_of(old(self).pending()))
                    && final(self).pending() == old(self).pending().skip(2),
                Err(e) => !(e is PacketTooSmall),
            },
    {
        let v = self.read_exact_vec(2)?;
        Ok(i16_from_be(v[0], v[1]))
    }

    /// Reads a 4-byte big-endian unsigned field.
    fn read_u32(&mut self) -> (r: Result<u32, PacketError>)
        ensures
            final(self).written() == old(self).written(),
            match r {
                Ok(b) => old(self).pending().len() >= 4
                    && b == be32_of(old(self).pending())
                    && final(self).pending() == old(self).pending().skip(4),
                Err(e) => !(e is PacketTooSmall),
            },
    {
        let v = self.read_exact_vec(4)?;
        Ok(u32_from_be(v[0], v[1], v[2], v[3]))
    }

    /// Reads the 4-byte size field that opens every frame.
    fn read_packet_size(&mut self) -> (r: Result<u32, PacketError>)
        ensures
            final(self).written() == old(self).written(),
            match r {
                Ok(b) => old(self).pending().len() >= 4
                    && b == be32_of(old(self).pending())
                    && final(self).pending() == old(self).pending().skip(4),
                Err(e) => !(e is PacketTooSmall),
            },
    {
        self.read_u32()
    }

    /// Reads a length-prefixed byte string (4-byte length, then the bytes).
    fn read_bytes(&mut self) -> (r: Result<Vec<u8>, PacketError>)
        ensures
            final(self).written() == old(self).written(),
            match r {
                Ok(v) => old(self).pending().len() >= 4 + be32_of(old(self).pending())
                    && v@ == old(self).pending().skip(4).take(be32_of(old(self).pending()))
                    && final(self).pending() == old(self).pending().skip(
                        4 + be32_of(old(self).pending()),
                    ),
                Err(e) => !(e is PacketTooSmall),
            },
    {
        let len = self.read_u32()?;
        let v = self.read_exact_vec(len as usize)?;
        proof {
            assert(v@ =~= old(self).pending().skip(4).take(be32_of(old(self).pending())));
            assert(self.pending() =~= old(self).pending().skip(
                4 + be32_of(old(self).pending()),
            ));
        }
        Ok(v)
    }

    /// Reads `lit.len()` bytes and demands that they equal `lit`.
    fn read_str_lit(&mut self, lit: &[u8]) -> (r: Result<(), PacketError>)
        ensures
            final(self).written() == old(self).written(),
            match r {
                Ok(_) => old(self).pending().len() >= lit@.len()
                    && old(self).pending().take(lit@.len() as int) == lit@
                    && final(self).pending() == old(self).pending().skip(lit@.len() as int),
                Err(e) => !(e is PacketTooSmall),
            },
    {
        let v = self.read_exact_vec(lit.len())?;
        let mut i: usize = 0;
        while i < lit.len()
            invariant
                self.written() == old(self).written(),
                i <= lit@.len(),
                v@.len() == lit@.len(),
                forall|j: int| 0 <= j < i ==> v@[j] == lit@[j],
            decreases lit@.len() - i,
        {
            if v[i] != lit[i] {
                return Err(PacketError::FormatError);
            }
            i += 1;
        }
        proof {
            assert(v@ =~= lit@);
        }
        Ok(())
    }

    /// Reads a 4-byte length and then drops that many bytes, 16 at a time.
    fn consume_bytes(&mut self) -> (r: Result<(), PacketError>)
        ensures
            final(self).written() == old(self).written(),
            match r {
                Ok(_) => old(self).pending().len() >= 4 + be32_of(old(self).pending())
                    && final(self).pending() == old(self).pending().skip(
                        4 + be32_of(old(self).pending()),
                    ),
                Err(e) => !(e is PacketTooSmall),
            },
    {
        let len = self.read_u32()?;
        let mut left: usize = len as usize;
        while left > 0
            invariant
                self.written() == old(self).written(),
                left <= len,
                old(self).pending().len() >= 4 + (len - left),
                self.pending() == old(self).pending().skip(4 + (len - left)),
            decreases left,
        {
            let step: usize = if left < 16 {
                left
            } else {
                16
            };
            let chunk = self.read_exact_vec(step)?;
            proof {
                vstd::seq_lib::lemma_seq_skip_of_skip(
                    old(self).pending(),
                    4 + len - left,
                    step as int,
                );
            }
            left -= step;
        }
        Ok(())
    }
}

/// A sink of protocol bytes. `written()` is the log of every byte handed out.
pub trait PacketWriter: StreamModel {
    /// Writes all of `data`.
    fn write_all_bytes(&mut self, data: &[u8]) -> (r: Result<(), PacketError>)
        ensures
            final(self).pending() == old(self).pending(),
            match r {
                Ok(_) => final(self).written() == old(self).written() + data@,
                Err(e) => !(e is PacketTooSmall),
            },
    ;

    /// Writes a 2-byte big-endian field.
    fn write_u16(&mut self, data: u16) -> (r: Result<(), PacketError>)
        ensures
            final(self).pending() == old(self).pending(),
            match r {
                Ok(_) => final(self).written() == old(self).written()
                    + crate::wire::be16_bytes(data),
                Err(e) => !(e is PacketTooSmall),
            },
    {
        let (b0, b1) = crate::wire::u16_to_be(data);
        let buf: [u8; 2] = [b0, b1];
        proof {
            assert(buf@ =~= crate::wire::be16_bytes(data));
        }
        self.write_all_bytes(buf.as_slice())
    }

    /// Writes a 4-byte big-endian field.
    fn write_u32(&mut self, data: u32) -> (r: Result<(), PacketError>)
        ensures
            final(self).pending() == old(self).pending(),
            match r {
                Ok(_) => final(self).written() == old(self).written()
                    + crate::wire::be32_bytes(data),
                Err(e) => !(e is PacketTooSmall),
            },
    {
        let (b0, b1, b2, b3) = crate::wire::u32_to_be(data);
        let buf: [u8; 4] = [b0, b1, b2, b3];
        proof {
            assert(buf@ =~= crate::wire::be32_bytes(data));
        }
        self.write_all_bytes(buf.as_slice())
    }

    /// Writes a length-prefixed byte string (4-byte length, then the bytes).
    fn write_str(&mut self, data: &[u8]) -> (r: Result<(), PacketError>)
        requires
            data@.len() <= u32::MAX,
        ensures
            final(self).pending() == old(self).pending(),
            match r {
                Ok(_) => final(self).written() == old(self).written()
                    + crate::wire::be32_bytes(data@.len() as u32) + data@,
                Err(e) => !(e is PacketTooSmall),
            },
    {
        self.write_u32(data.len() as u32)?;
        self.write_all_bytes(data)
    }
}

/// An in-memory `PacketReader` over a byte vector; the verified transport
/// used by tests and by replaying captured streams.
pub struct MemReader {
    data: Vec<u8>,
    pos: usize,
}

impl MemReader {
    #[verifier::type_invariant]
    spec fn wf(self) -> bool {
        self.pos <= self.data@.len()
    }

    /// All bytes the reader has yet to deliver.
    pub closed spec fn spec_pending(&self) -> Seq<u8> {
        self.data@.skip(self.pos as int)
    }

    /// Wraps a byte vector as a stream positioned at its start.
    pub fn new(data: Vec<u8>) -> (r: MemReader)
        ensures
            r.pending() == data@,
    {
        let r = MemReader { data, pos: 0 };
        proof {
            assert(r.spec_pending() =~= r.data@);
        }
        r
    }
}

impl StreamModel for MemReader {
    open spec fn pending(&self) -> Seq<u8> {
        self.spec_pending()
    }

    open spec fn written(&self) -> Seq<u8> {
        Seq::<u8>::empty()
    }
}

impl PacketReader for MemReader {
    fn read_exact_vec(&mut self, n: usize) -> (r: Result<Vec<u8>, PacketError>)
        ensures
            r is Ok <==> n <= old(self).pending().len(),
            r is Err ==> r == Err::<Vec<u8>, PacketError>(PacketError::InsufficientDataError)
                && *final(self) == *old(self),
    {
        proof {
            use_type_invariant(&*self);
        }
        if n > self.data.len() - self.pos {
            return Err(PacketError::InsufficientDataError);
        }
        let ghost entry = *self;
        let mut v: Vec<u8> = Vec::new();
        let mut i: usize = 0;
        while i < n
            invariant
                i <= n,
                self.pos + n <= self.data.len(),
                *self == entry,
                v@ =~= self.data@.subrange(self.pos as int, self.pos + i),
            decreases n - i,
        {
            let b = self.data[self.pos + i];
            v.push(b);
            i += 1;
        }
        self.pos = self.pos + n;
        proof {
            assert(v@ =~= entry.spec_pending().take(n as int));
            assert(self.spec_pending() =~= entry.spec_pending().skip(n as int));
        }
        Ok(v)
    }

    fn read_up_to(&mut self, n: usize) -> (r: Result<Vec<u8>, PacketError>)
        ensures
            r is Ok,
    {
        proof {
            use_type_invariant(&*self);
        }
        let avail = self.data.len() - self.pos;
        let k: usize = if n < avail {
            n
        } else {
            avail
        };
        self.read_exact_vec(k)
    }

    fn drain(&mut self) -> (r: Result<(), PacketError>)
        ensures
            r is Ok,
    {
        self.pos = self.data.len();
        proof {
            assert(self.spec_pending() =~= Seq::<u8>::empty());
        }
        Ok(())
    }
}

/// An in-memory `PacketWriter` collecting everything into a byte vector.
pub struct MemWriter {
    data: Vec<u8>,
}

impl MemWriter {
    /// All bytes handed to this sink so far.
    pub closed spec fn spec_written(&self) -> Seq<u8> {
        self.data@
    }

    /// Starts with an empty log.
    pub fn new() -> (r: MemWriter)
        ensures
            r.written() == Seq::<u8>::empty(),
    {
        MemWriter { data: Vec::new() }
    }

    /// Hands the collected bytes out.
    pub fn into_vec(self) -> (r: Vec<u8>)
        ensures
            r@ == self.written(),
    {
        self.data
    }
}

impl StreamModel for MemWriter {
    open spec fn pending(&self) -> Seq<u8> {
        Seq::<u8>::empty()
    }

    open spec fn written(&self) -> Seq<u8> {
        self.spec_written()
    }
}

impl PacketWriter for MemWriter {
    fn write_all_bytes(&mut self, data: &[u8]) -> (r: Result<(), PacketError>)
        ensures
            r is Ok,
    {
        let mut i: usize = 0;
        while i < data.len()
            invariant
                i <= data@.len(),
                self.data@ =~= old(self).data@ + data@.take(i as int),
            decreases data@.len() - i,
        {
            let b = data[i];
            self.data.push(b);
            i += 1;
        }
        proof {
            assert(self.data@ =~= old(self).data@ + data@);
        }
        Ok(())
    }
}

} // verus!
