//! Big-endian integers in a byte buffer.

use vstd::prelude::*;
use crate::error::ParseError;

verus! {

/// The unsigned 16-bit integer stored at `at`.
pub open spec fn be_u16(data: Seq<u8>, at: int) -> int {
    data[at] as int * 0x100 + data[at + 1] as int
}

/// The signed 16-bit integer stored at `at`, in two's complement.
pub open spec fn be_i16(data: Seq<u8>, at: int) -> int {
    if be_u16(data, at) < 0x8000 {
        be_u16(data, at)
    } else {
        be_u16(data, at) - 0x10000
    }
}

/// The unsigned 32-bit integer stored at `at`.
pub open spec fn be_u32(data: Seq<u8>, at: int) -> int {
    be_u16(data, at) * 0x10000 + be_u16(data, at + 2)
}

/// The signed 32-bit integer stored at `at`, in two's complement.
pub open spec fn be_i32(data: Seq<u8>, at: int) -> int {
    if be_u32(data, at) < 0x8000_0000 {
        be_u32(data, at)
    } else {
        be_u32(data, at) - 0x1_0000_0000
    }
}

/// The unsigned 64-bit integer stored at `at`.
pub open spec fn be_u64(data: Seq<u8>, at: int) -> int {
    be_u32(data, at) * 0x1_0000_0000 + be_u32(data, at + 4)
}

/// The signed 64-bit integer stored at `at`, in two's complement.
pub open spec fn be_i64(data: Seq<u8>, at: int) -> int {
    if be_u64(data, at) < 0x8000_0000_0000_0000 {
        be_u64(data, at)
    } else {
        be_u64(data, at) - 0x1_0000_0000_0000_0000
    }
}

/// What [`read_u16_be`] returns: the integer at `at`, or `BadEof` where the
/// buffer is too short to hold it.
pub open spec fn spec_read_u16_be(data: Seq<u8>, at: int) -> Result<u16, ParseError> {
    if at + 2 <= data.len() {
        Ok(be_u16(data, at) as u16)
    } else {
        Err(ParseError::BadEof)
    }
}

/// Reads the byte at `at`.
pub fn u8_at(data: &[u8], at: usize) -> (v: u8)
    requires
        at < data@.len(),
    ensures
        v == data@[at as int],
{
    data[at]
}

/// Reads an unsigned 16-bit integer from a place known to hold one.
pub fn u16_at(data: &[u8], at: usize) -> (v: u16)
    requires
        at + 2 <= data@.len(),
    ensures
        v == be_u16(data@, at as int),
{
    let hi: u16 = data[at] as u16;
    let lo: u16 = data[at + 1] as u16;
    hi * 0x100 + lo
}

/// Reads a signed 16-bit integer from a place known to hold one.
pub fn i16_at(data: &[u8], at: usize) -> (v: i16)
    requires
        at + 2 <= data@.len(),
    ensures
        v == be_i16(data@, at as int),
{
    let raw: u16 = u16_at(data, at);
    if raw < 0x8000 {
        raw as i16
    } else {
        (raw as i32 - 0x10000) as i16
    }
}

/// Reads an unsigned 32-bit integer from a place known to hold one.
pub fn u32_at(data: &[u8], at: usize) -> (v: u32)
    requires
        at + 4 <= data@.len(),
    ensures
        v == be_u32(data@, at as int),
{
    let len: usize = data.len();
    let hi: u32 = u16_at(data, at) as u32;
    let lo: u32 = u16_at(data, at + 2) as u32;
    hi * 0x10000 + lo
}

/// Reads a signed 32-bit integer from a place known to hold one.
pub fn i32_at(data: &[u8], at: usize) -> (v: i32)
    requires
        at + 4 <= data@.len(),
    ensures
        v == be_i32(data@, at as int),
{
    let raw: u32 = u32_at(data, at);
    if raw < 0x8000_0000 {
        raw as i32
    } else {
        (raw as i64 - 0x1_0000_0000) as i32
    }
}

/// Reads an unsigned 64-bit integer from a place known to hold one.
pub fn u64_at(data: &[u8], at: usize) -> (v: u64)
    requires
        at + 8 <= data@.len(),
    ensures
        v == be_u64(data@, at as int),
{
    let len: usize = data.len();
    let hi: u64 = u32_at(data, at) as u64;
    let lo: u64 = u32_at(data, at + 4) as u64;
    hi * 0x1_0000_0000 + lo
}

/// Reads a signed 64-bit integer from a place known to hold one.
pub fn i64_at(data: &[u8], at: usize) -> (v: i64)
    requires
        at + 8 <= data@.len(),
    ensures
        v == be_i64(data@, at as int),
{
    let raw: u64 = u64_at(data, at);
    if raw < 0x8000_0000_0000_0000 {
        raw as i64
    } else {
        (raw as i128 - 0x1_0000_0000_0000_0000) as i64
    }
}

/// Reads an unsigned 16-bit integer, or fails with `BadEof` where the buffer
/// ends before it does.
pub fn read_u16_be(data: &[u8], at: usize) -> (r: Result<u16, ParseError>)
    ensures
        r == spec_read_u16_be(data@, at as int),
{
    if data.len() >= 2 && at <= data.len() - 2 {
        Ok(u16_at(data, at))
    } else {
        Err(ParseError::BadEof)
    }
}

} // verus!
