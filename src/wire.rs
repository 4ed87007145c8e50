//! Little-endian field codec shared by the telemetry and command records.

use vstd::bytes::*;
use vstd::prelude::*;

verus! {

/// Error of a fixed-layout decode: the buffer ended before the record did.
#[derive(Clone, Copy, Debug, PartialEq, Eq, Structural)]
pub enum DecodeError {
    /// `additional` more bytes were needed to complete the record.
    UnexpectedEnd { additional: usize },
}

/// Appends the four little-endian bytes of `x` to `out`.
pub fn push_u32_le(out: &mut Vec<u8>, x: u32)
    ensures
        final(out)@ == old(out)@ + spec_u32_to_le_bytes(x),
{
    let mut b = u32_to_le_bytes(x);
    out.append(&mut b);
}

/// Appends the eight little-endian bytes of `x` to `out`.
pub fn push_u64_le(out: &mut Vec<u8>, x: u64)
    ensures
        final(out)@ == old(out)@ + spec_u64_to_le_bytes(x),
{
    let mut b = u64_to_le_bytes(x);
    out.append(&mut b);
}

/// Reads the little-endian `u32` that starts at `at`.
pub fn read_u32_le(b: &[u8], at: usize) -> (x: u32)
    requires
        at + 4 <= b@.len(),
    ensures
        x == spec_u32_from_le_bytes(b@.subrange(at as int, at + 4)),
{
    let len = b.len();
    assert(at + 4 <= len);
    u32_from_le_bytes(vstd::slice::slice_subrange(b, at, at + 4))
}

/// Reads the little-endian `u64` that starts at `at`.
pub fn read_u64_le(b: &[u8], at: usize) -> (x: u64)
    requires
        at + 8 <= b@.len(),
    ensures
        x == spec_u64_from_le_bytes(b@.subrange(at as int, at + 8)),
{
    let len = b.len();
    assert(at + 8 <= len);
    u64_from_le_bytes(vstd::slice::slice_subrange(b, at, at + 8))
}

} // verus!
