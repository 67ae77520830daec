//! Bits of the `flags` field of a frame.

use vstd::prelude::*;

verus! {

/// The key came with the E0 scan-code prefix (extended key).
pub const EXTENDED_E0: u16 = 1;

/// The key came with the E1 scan-code prefix (only Pause uses it).
pub const EXTENDED_E1: u16 = 2;

} // verus!
