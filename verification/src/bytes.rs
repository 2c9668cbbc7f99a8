//! Little-endian views of a byte sequence.
//!
//! Every integer in the container is little-endian. These spec functions give
//! the mathematical reading of a `u16` or `u32` at a byte offset; the
//! executable readers are proved against them.

use vstd::prelude::*;

verus! {

/// The `u16` stored little-endian at byte offset `i` of `d`.
pub open spec fn u16_le_at(d: Seq<u8>, i: int) -> u16
    recommends
        0 <= i,
        i + 2 <= d.len(),
{
    (d[i] + d[i + 1] * 0x100) as u16
}

/// The `u32` stored little-endian at byte offset `i` of `d`.
pub open spec fn u32_le_at(d: Seq<u8>, i: int) -> u32
    recommends
        0 <= i,
        i + 4 <= d.len(),
{
    (d[i] + d[i + 1] * 0x100 + d[i + 2] * 0x1_0000 + d[i + 3] * 0x100_0000) as u32
}

/// Combine two bytes into the `u16` they encode little-endian.
pub fn u16_from_le_pair(lo: u8, hi: u8) -> (r: u16)
    ensures
        r == lo + hi * 0x100,
{
    lo as u16 + hi as u16 * 0x100
}

/// Combine four bytes into the `u32` they encode little-endian.
pub fn u32_from_le_quad(b0: u8, b1: u8, b2: u8, b3: u8) -> (r: u32)
    ensures
        r == b0 + b1 * 0x100 + b2 * 0x1_0000 + b3 * 0x100_0000,
{
    b0 as u32 + b1 as u32 * 0x100 + b2 as u32 * 0x1_0000 + b3 as u32 * 0x100_0000
}

} // verus!
