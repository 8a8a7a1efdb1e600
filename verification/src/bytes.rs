//! Integers as they lie in a native buffer.

use vstd::prelude::*;

verus! {

/// The 16-bit integer stored least significant byte first at `at`.
pub open spec fn le_u16(bytes: Seq<u8>, at: int) -> u16 {
    (bytes[at] + 0x100 * bytes[at + 1]) as u16
}

/// The 32-bit integer stored least significant byte first at `at`.
pub open spec fn le_u32(bytes: Seq<u8>, at: int) -> u32 {
    (le_u16(bytes, at) + 0x1_0000 * le_u16(bytes, at + 2)) as u32
}

/// The 64-bit integer stored least significant byte first at `at`.
pub open spec fn le_u64(bytes: Seq<u8>, at: int) -> u64 {
    (le_u32(bytes, at) + 0x1_0000_0000 * le_u32(bytes, at + 4)) as u64
}

/// The 16-bit integer stored most significant byte first at `at`.
pub open spec fn be_u16(bytes: Seq<u8>, at: int) -> u16 {
    (0x100 * bytes[at] + bytes[at + 1]) as u16
}

/// The 32-bit integer stored most significant byte first at `at`.
pub open spec fn be_u32(bytes: Seq<u8>, at: int) -> u32 {
    (0x1_0000 * be_u16(bytes, at) + be_u16(bytes, at + 2)) as u32
}

/// The 48-bit integer stored most significant byte first at `at`.
pub open spec fn be_u48(bytes: Seq<u8>, at: int) -> u64 {
    (0x1_0000_0000 * be_u16(bytes, at) + be_u32(bytes, at + 2)) as u64
}

/// The 64-bit integer stored most significant byte first at `at`.
pub open spec fn be_u64(bytes: Seq<u8>, at: int) -> u64 {
    (0x1_0000_0000 * be_u32(bytes, at) + be_u32(bytes, at + 4)) as u64
}

/// The signed reading of a byte in two's complement.
pub open spec fn signed8(value: u8) -> i8 {
    if value < 0x80 {
        value as i8
    } else {
        (value - 0x100) as i8
    }
}

/// The signed reading of a 16-bit integer in two's complement.
pub open spec fn signed16(value: u16) -> i16 {
    if value < 0x8000 {
        value as i16
    } else {
        (value - 0x1_0000) as i16
    }
}

/// The signed reading of a 32-bit integer in two's complement.
pub open spec fn signed32(value: u32) -> i32 {
    if value < 0x8000_0000 {
        value as i32
    } else {
        (value - 0x1_0000_0000) as i32
    }
}

/// The signed reading of a 64-bit integer in two's complement.
pub open spec fn signed64(value: u64) -> i64 {
    if value < 0x8000_0000_0000_0000 {
        value as i64
    } else {
        (value - 0x1_0000_0000_0000_0000) as i64
    }
}

/// Where in a buffer of `len` bytes that was filled at address `base` the address
/// `pointer` lies: its offset from the start, or nothing when it points before the
/// buffer or past its end.
pub open spec fn offset_in_buffer(len: nat, base: u64, pointer: u64) -> Option<int> {
    if base <= pointer && pointer - base <= len {
        Some(pointer - base)
    } else {
        None
    }
}

pub(crate) fn read_le_u16(bytes: &Vec<u8>, at: usize) -> (value: u16)
    requires
        at + 2 <= bytes.len(),
    ensures
        value == le_u16(bytes@, at as int),
{
    bytes[at] as u16 + 0x100 * (bytes[at + 1] as u16)
}

pub(crate) fn read_le_u32(bytes: &Vec<u8>, at: usize) -> (value: u32)
    requires
        at + 4 <= bytes.len(),
    ensures
        value == le_u32(bytes@, at as int),
{
    read_le_u16(bytes, at) as u32 + 0x1_0000 * (read_le_u16(bytes, at + 2) as u32)
}

pub(crate) fn read_le_u64(bytes: &Vec<u8>, at: usize) -> (value: u64)
    requires
        at + 8 <= bytes.len(),
    ensures
        value == le_u64(bytes@, at as int),
{
    read_le_u32(bytes, at) as u64 + 0x1_0000_0000 * (read_le_u32(bytes, at + 4) as u64)
}

pub(crate) fn read_be_u16(bytes: &Vec<u8>, at: usize) -> (value: u16)
    requires
        at + 2 <= bytes.len(),
    ensures
        value == be_u16(bytes@, at as int),
{
    0x100 * (bytes[at] as u16) + bytes[at + 1] as u16
}

pub(crate) fn read_be_u32(bytes: &Vec<u8>, at: usize) -> (value: u32)
    requires
        at + 4 <= bytes.len(),
    ensures
        value == be_u32(bytes@, at as int),
{
    0x1_0000 * (read_be_u16(bytes, at) as u32) + read_be_u16(bytes, at + 2) as u32
}

pub(crate) fn read_be_u48(bytes: &Vec<u8>, at: usize) -> (value: u64)
    requires
        at + 6 <= bytes.len(),
    ensures
        value == be_u48(bytes@, at as int),
        value < 0x1_0000_0000_0000,
{
    0x1_0000_0000 * (read_be_u16(bytes, at) as u64) + read_be_u32(bytes, at + 2) as u64
}

pub(crate) fn read_be_u64(bytes: &Vec<u8>, at: usize) -> (value: u64)
    requires
        at + 8 <= bytes.len(),
    ensures
        value == be_u64(bytes@, at as int),
{
    0x1_0000_0000 * (read_be_u32(bytes, at) as u64) + read_be_u32(bytes, at + 4) as u64
}

pub(crate) fn to_signed8(value: u8) -> (signed: i8)
    ensures
        signed == signed8(value),
{
    if value < 0x80 {
        value as i8
    } else {
        (value as i16 - 0x100) as i8
    }
}

pub(crate) fn to_signed16(value: u16) -> (signed: i16)
    ensures
        signed == signed16(value),
{
    if value < 0x8000 {
        value as i16
    } else {
        (value as i32 - 0x1_0000) as i16
    }
}

pub(crate) fn to_signed32(value: u32) -> (signed: i32)
    ensures
        signed == signed32(value),
{
    if value < 0x8000_0000 {
        value as i32
    } else {
        (value as i64 - 0x1_0000_0000) as i32
    }
}

pub(crate) fn to_signed64(value: u64) -> (signed: i64)
    ensures
        signed == signed64(value),
{
    if value < 0x8000_0000_0000_0000 {
        value as i64
    } else {
        (value as i128 - 0x1_0000_0000_0000_0000) as i64
    }
}

/// Resolves an address that a record holds to an offset in its backing buffer.
pub(crate) fn locate(bytes: &Vec<u8>, base: u64, pointer: u64) -> (offset: Option<usize>)
    ensures
        offset_in_buffer(bytes@.len(), base, pointer) == match offset {
            Some(at) => Some(at as int),
            None => None,
        },
{
    if pointer >= base {
        let delta: u64 = pointer - base;
        let len: usize = bytes.len();
        if delta <= len as u64 {
            return Some(delta as usize);
        }
    }
    None
}

} // verus!
