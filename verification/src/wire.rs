//! Big-endian field encoding: the mathematical meaning of multi-byte wire
//! fields, and verified executable conversions between bytes and integers.

use vstd::prelude::*;

verus! {

/// The value of a 2-byte big-endian field.
pub open spec fn be16(b0: u8, b1: u8) -> int {
    b0 * 0x100 + b1
}

/// The value of a 4-byte big-endian field.
pub open spec fn be32(b0: u8, b1: u8, b2: u8, b3: u8) -> int {
    b0 * 0x100_0000 + b1 * 0x1_0000 + b2 * 0x100 + b3
}

/// The value of the 2-byte big-endian field at the front of `s`.
pub open spec fn be16_of(s: Seq<u8>) -> int
    recommends
        s.len() >= 2,
{
    be16(s[0], s[1])
}

/// The value of the 4-byte big-endian field at the front of `s`.
pub open spec fn be32_of(s: Seq<u8>) -> int
    recommends
        s.len() >= 4,
{
    be32(s[0], s[1], s[2], s[3])
}

/// A 16-bit wire value read as a two's-complement signed number.
pub open spec fn signed16(v: int) -> int {
    if v < 0x8000 {
        v
    } else {
        v - 0x1_0000
    }
}

/// An 8-bit wire value read as a two's-complement signed number.
pub open spec fn signed8(v: int) -> int {
    if v < 0x80 {
        v
    } else {
        v - 0x100
    }
}

/// The two big-endian bytes of a 16-bit value.
pub open spec fn be16_bytes(v: u16) -> Seq<u8> {
    seq![(v / 0x100) as u8, (v % 0x100) as u8]
}

/// The four big-endian bytes of a 32-bit value.
pub open spec fn be32_bytes(v: u32) -> Seq<u8> {
    seq![
        (v / 0x100_0000) as u8,
        ((v / 0x1_0000) % 0x100) as u8,
        ((v / 0x100) % 0x100) as u8,
        (v % 0x100) as u8,
    ]
}

/// Reading back the two bytes of a 16-bit value yields that value.
pub proof fn lemma_be16_roundtrip(v: u16)
    ensures
        be16_of(be16_bytes(v)) == v,
{
    assert((v / 0x100) * 0x100 + v % 0x100 == v) by (nonlinear_arith);
}

/// Reading back the four bytes of a 32-bit value yields that value.
pub proof fn lemma_be32_roundtrip(v: u32)
    ensures
        be32_of(be32_bytes(v)) == v,
{
    assert((v / 0x100_0000) * 0x100_0000 + ((v / 0x1_0000) % 0x100) * 0x1_0000 + ((v / 0x100) % 0x100) * 0x100 + v % 0x100 == v) by (nonlinear_arith);
}

/// Assembles a 16-bit unsigned value from its big-endian bytes.
pub fn u16_from_be(b0: u8, b1: u8) -> (r: u16)
    ensures
        r == be16(b0, b1),
{
    (b0 as u16) * 0x100 + (b1 as u16)
}

/// Assembles a 32-bit unsigned value from its big-endian bytes.
pub fn u32_from_be(b0: u8, b1: u8, b2: u8, b3: u8) -> (r: u32)
    ensures
        r == be32(b0, b1, b2, b3),
{
    (b0 as u32) * 0x100_0000 + (b1 as u32) * 0x1_0000 + (b2 as u32) * 0x100 + (b3 as u32)
}

/// Assembles a 16-bit signed value from its big-endian bytes.
pub fn i16_from_be(b0: u8, b1: u8) -> (r: i16)
    ensures
        r == signed16(be16(b0, b1)),
{
    let v = u16_from_be(b0, b1);
    let wide: i32 = if v >= 0x8000 {
        v as i32 - 0x1_0000
    } else {
        v as i32
    };
    wide as i16
}

/// Reads one byte as a two's-complement signed number.
pub fn i8_from_byte(b: u8) -> (r: i8)
    ensures
        r == signed8(b as int),
{
    let wide: i16 = if b >= 0x80 {
        b as i16 - 0x100
    } else {
        b as i16
    };
    wide as i8
}

/// Splits a 16-bit value into its big-endian bytes.
pub fn u16_to_be(v: u16) -> (r: (u8, u8))
    ensures
        seq![r.0, r.1] == be16_bytes(v),
        be16(r.0, r.1) == v,
{
    let hi = (v / 0x100) as u8;
    let lo = (v % 0x100) as u8;
    proof {
        lemma_be16_roundtrip(v);
        assert(seq![hi, lo] =~= be16_bytes(v));
    }
    (hi, lo)
}

/// Splits a 32-bit value into its big-endian bytes.
pub fn u32_to_be(v: u32) -> (r: (u8, u8, u8, u8))
    ensures
        seq![r.0, r.1, r.2, r.3] == be32_bytes(v),
        be32(r.0, r.1, r.2, r.3) == v,
{
    let b0 = (v / 0x100_0000) as u8;
    let b1 = ((v / 0x1_0000) % 0x100) as u8;
    let b2 = ((v / 0x100) % 0x100) as u8;
    let b3 = (v % 0x100) as u8;
    proof {
        lemma_be32_roundtrip(v);
        assert(seq![b0, b1, b2, b3] =~= be32_bytes(v));
    }
    (b0, b1, b2, b3)
}

/// The value of a 16-bit counter after a wrapping signed addition.
pub open spec fn wrap_add16(c: int, d: int) -> int {
    (c + d) % 0x1_0000
}

/// Wrapping signed addition on a 16-bit unsigned value.
pub fn wrap_add16_exec(c: u16, d: i16) -> (r: u16)
    ensures
        r == wrap_add16(c as int, d as int),
{
    let sum: i32 = c as i32 + d as i32;
    if sum < 0 {
        (sum + 0x1_0000) as u16
    } else if sum > 0xFFFF {
        (sum - 0x1_0000) as u16
    } else {
        sum as u16
    }
}

} // verus!
