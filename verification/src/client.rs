//! The reporting client's framing logic: its input stream opens with a
//! four-byte little-endian length header.

use vstd::prelude::*;

verus! {

/// Reads a four-byte little-endian header into the payload length it
/// announces.
pub fn to_u32(b: [u8; 4]) -> (r: u32)
    ensures
        r == b@[0] + b@[1] * 0x100 + b@[2] * 0x10000 + b@[3] * 0x1000000,
{
    let b0 = b[0] as u32;
    let b1 = b[1] as u32;
    let b2 = b[2] as u32;
    let b3 = b[3] as u32;
    b0 + b1 * 0x100 + b2 * 0x10000 + b3 * 0x1000000
}

} // verus!
