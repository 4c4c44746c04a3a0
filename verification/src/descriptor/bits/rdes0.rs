//! RX descriptor word 0: status bits.

use vstd::prelude::*;

verus! {

/// Extended status available (RDES4 valid)
pub const EXT_STATUS: u32 = 0x0000_0001;
/// CRC error
pub const CRC_ERR: u32 = 0x0000_0002;
/// Dribble bit error
pub const DRIBBLE_ERR: u32 = 0x0000_0004;
/// Receive error reported by the PHY
pub const RX_ERR: u32 = 0x0000_0008;
/// Receive watchdog timeout
pub const RX_WATCHDOG: u32 = 0x0000_0010;
/// Frame type: Ethernet (length/type > 0x600)
pub const FRAME_TYPE: u32 = 0x0000_0020;
/// Late collision
pub const LATE_COLLISION: u32 = 0x0000_0040;
/// Timestamp available in RDES6/RDES7
pub const TIMESTAMP_AVAIL: u32 = 0x0000_0080;
/// Last descriptor of the frame
pub const LAST_DESC: u32 = 0x0000_0100;
/// First descriptor of the frame
pub const FIRST_DESC: u32 = 0x0000_0200;
/// VLAN tagged frame
pub const VLAN_TAG: u32 = 0x0000_0400;
/// DMA buffer overflow
pub const OVERFLOW_ERR: u32 = 0x0000_0800;
/// Length error
pub const LENGTH_ERR: u32 = 0x0000_1000;
/// Source address filter fail
pub const SA_FILTER_FAIL: u32 = 0x0000_2000;
/// Descriptor error
pub const DESC_ERR: u32 = 0x0000_4000;
/// Error summary
pub const ERR_SUMMARY: u32 = 0x0000_8000;
/// Frame length shift (14-bit field)
pub const FRAME_LEN_SHIFT: u32 = 16;
/// Frame length mask (bits 29:16)
pub const FRAME_LEN_MASK: u32 = 0x3FFF_0000;
/// Destination address filter fail
pub const DA_FILTER_FAIL: u32 = 0x4000_0000;
/// OWN: set while the DMA owns the descriptor
pub const OWN: u32 = 0x8000_0000;
/// All RX error bits
pub const ALL_ERRORS: u32 = CRC_ERR | DRIBBLE_ERR | RX_ERR | RX_WATCHDOG | LATE_COLLISION
    | OVERFLOW_ERR | LENGTH_ERR | DESC_ERR;

} // verus!
