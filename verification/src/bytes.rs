//! Little-endian integers inside a byte sequence.
//!
//! The values are defined arithmetically, byte by byte, so a reader needs no
//! alignment and never reinterprets memory.

use vstd::prelude::*;

verus! {

/// The unsigned 32-bit value whose little-endian encoding is `s[at..at + 4]`.
pub open spec fn le_u32(s: Seq<u8>, at: int) -> int
    recommends
        0 <= at,
        at + 4 <= s.len(),
{
    s[at] + 0x100 * s[at + 1] + 0x1_0000 * s[at + 2] + 0x100_0000 * s[at + 3]
}

/// The unsigned 64-bit value whose little-endian encoding is `s[at..at + 8]`.
pub open spec fn le_u64(s: Seq<u8>, at: int) -> int
    recommends
        0 <= at,
        at + 8 <= s.len(),
{
    le_u32(s, at) + 0x1_0000_0000 * le_u32(s, at + 4)
}

/// Reads the little-endian `u32` that starts at byte `at`.
pub fn read_u32_le(bytes: &[u8], at: usize) -> (value: u32)
    requires
        at + 4 <= bytes.len(),
    ensures
        value == le_u32(bytes@, at as int),
{
    let b0: u32 = bytes[at] as u32;
    let b1: u32 = bytes[at + 1] as u32;
    let b2: u32 = bytes[at + 2] as u32;
    let b3: u32 = bytes[at + 3] as u32;
    b0 + 0x100 * b1 + 0x1_0000 * b2 + 0x100_0000 * b3
}

/// Reads the little-endian `u64` that starts at byte `at`.
pub fn read_u64_le(bytes: &[u8], at: usize) -> (value: u64)
    requires
        at + 8 <= bytes.len(),
    ensures
        value == le_u64(bytes@, at as int),
{
    let low: u64 = read_u32_le(bytes, at) as u64;
    let high: u64 = read_u32_le(bytes, at + 4) as u64;
    low + 0x1_0000_0000 * high
}

} // verus!
