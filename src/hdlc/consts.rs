//! Flag bytes and the escape mask of the HDLC encoding.

use vstd::prelude::*;

verus! {

/// Delimits a frame.
pub const FRAME: u8 = 0x7e;

/// Precedes an escaped byte.
pub const ESCAPE: u8 = 0x7d;

/// An escaped byte is sent XOR this mask.
pub const MASK: u8 = 0x20;

} // verus!
