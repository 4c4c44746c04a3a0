//! RX descriptor word 1: control and buffer sizes.

use vstd::prelude::*;

verus! {

/// Buffer 1 size mask (13 bits)
pub const BUFFER1_SIZE_MASK: u32 = 0x1FFF;
/// Buffer 1 size shift
pub const BUFFER1_SIZE_SHIFT: u32 = 0;
/// Second address chained: buffer 2 holds the next descriptor address
pub const SECOND_ADDR_CHAINED: u32 = 0x0000_4000;
/// Receive end of ring
pub const RX_END_OF_RING: u32 = 0x0000_8000;
/// Buffer 2 size mask (13 bits at 28:16)
pub const BUFFER2_SIZE_MASK: u32 = 0x1FFF_0000;
/// Buffer 2 size shift
pub const BUFFER2_SIZE_SHIFT: u32 = 16;
/// Disable interrupt on completion
pub const DISABLE_IRQ: u32 = 0x8000_0000;

} // verus!
