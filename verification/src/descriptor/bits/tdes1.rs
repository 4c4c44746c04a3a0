//! TX descriptor word 1: buffer sizes.

use vstd::prelude::*;

verus! {

/// Buffer 1 size mask (13 bits)
pub const BUFFER1_SIZE_MASK: u32 = 0x1FFF;
/// Buffer 1 size shift
pub const BUFFER1_SIZE_SHIFT: u32 = 0;
/// Buffer 2 size mask
pub const BUFFER2_SIZE_MASK: u32 = 0x1FFF_0000;
/// Buffer 2 size shift
pub const BUFFER2_SIZE_SHIFT: u32 = 16;
/// Source address insertion control shift (3 bits)
pub const SA_INSERT_CTRL_SHIFT: u32 = 29;
/// Source address insertion control mask
pub const SA_INSERT_CTRL_MASK: u32 = 0xE000_0000;

} // verus!
