//! Fixed-width integers as they lie in a byte stream.

use vstd::prelude::*;

verus! {

/// The value of two bytes read as an unsigned number, high byte first.
pub open spec fn be_u16(hi: u8, lo: u8) -> int {
    hi as int * 0x100 + lo as int
}

/// The value of two bytes read as an unsigned number, low byte first.
pub open spec fn le_u16(b0: u8, b1: u8) -> int {
    b0 as int + b1 as int * 0x100
}

/// The value of four bytes read as an unsigned number, low byte first.
pub open spec fn le_u32(b0: u8, b1: u8, b2: u8, b3: u8) -> int {
    b0 as int + b1 as int * 0x100 + b2 as int * 0x1_0000 + b3 as int * 0x100_0000
}

/// The two's-complement reading of a 16-bit pattern.
pub open spec fn signed16(v: int) -> int {
    if v < 0x8000 {
        v
    } else {
        v - 0x1_0000
    }
}

/// The two's-complement reading of a 32-bit pattern.
pub open spec fn signed32(v: int) -> int {
    if v < 0x8000_0000 {
        v
    } else {
        v - 0x1_0000_0000
    }
}

/// Reads an unsigned 16-bit number, high byte first.
pub fn u16_from_be(hi: u8, lo: u8) -> (v: u16)
    ensures
        v == be_u16(hi, lo),
{
    (hi as u16) * 0x100 + (lo as u16)
}

/// Reads a signed 16-bit number, high byte first.
pub fn i16_from_be(hi: u8, lo: u8) -> (v: i16)
    ensures
        v == signed16(be_u16(hi, lo)),
{
    let raw: i32 = (hi as i32) * 0x100 + (lo as i32);
    if raw < 0x8000 {
        raw as i16
    } else {
        (raw - 0x1_0000) as i16
    }
}

/// Reads an unsigned 16-bit number, low byte first.
pub fn u16_from_le(b0: u8, b1: u8) -> (v: u16)
    ensures
        v == le_u16(b0, b1),
{
    (b0 as u16) + (b1 as u16) * 0x100
}

/// Reads a signed 16-bit number, low byte first.
pub fn i16_from_le(b0: u8, b1: u8) -> (v: i16)
    ensures
        v == signed16(le_u16(b0, b1)),
{
    let raw: i32 = (b0 as i32) + (b1 as i32) * 0x100;
    if raw < 0x8000 {
        raw as i16
    } else {
        (raw - 0x1_0000) as i16
    }
}

/// Reads an unsigned 32-bit number, low byte first.
pub fn u32_from_le(b0: u8, b1: u8, b2: u8, b3: u8) -> (v: u32)
    ensures
        v == le_u32(b0, b1, b2, b3),
{
    (b0 as u32) + (b1 as u32) * 0x100 + (b2 as u32) * 0x1_0000 + (b3 as u32) * 0x100_0000
}

/// Reads a signed 32-bit number, low byte first.
pub fn i32_from_le(b0: u8, b1: u8, b2: u8, b3: u8) -> (v: i32)
    ensures
        v == signed32(le_u32(b0, b1, b2, b3)),
{
    let raw: i64 = (b0 as i64) + (b1 as i64) * 0x100 + (b2 as i64) * 0x1_0000 + (b3 as i64)
        * 0x100_0000;
    if raw < 0x8000_0000 {
        raw as i32
    } else {
        (raw - 0x1_0000_0000) as i32
    }
}

} // verus!
