//! TX descriptor word 0: status and control bits.

use vstd::prelude::*;

verus! {

/// Deferred
pub const DEFERRED: u32 = 0x0000_0001;
/// Underflow error
pub const UNDERFLOW_ERR: u32 = 0x0000_0002;
/// Excessive deferral
pub const EXCESSIVE_DEFERRAL: u32 = 0x0000_0004;
/// Collision count shift (4 bits)
pub const COLLISION_COUNT_SHIFT: u32 = 3;
/// Collision count mask
pub const COLLISION_COUNT_MASK: u32 = 0x0000_0078;
/// VLAN frame
pub const VLAN_FRAME: u32 = 0x0000_0080;
/// Excessive collision
pub const EXCESSIVE_COLLISION: u32 = 0x0000_0100;
/// Late collision
pub const LATE_COLLISION: u32 = 0x0000_0200;
/// No carrier
pub const NO_CARRIER: u32 = 0x0000_0400;
/// Loss of carrier
pub const LOSS_OF_CARRIER: u32 = 0x0000_0800;
/// IP payload error
pub const IP_PAYLOAD_ERR: u32 = 0x0000_1000;
/// Frame flushed
pub const FRAME_FLUSHED: u32 = 0x0000_2000;
/// Jabber timeout
pub const JABBER_TIMEOUT: u32 = 0x0000_4000;
/// Error summary
pub const ERR_SUMMARY: u32 = 0x0000_8000;
/// IP header error
pub const IP_HEADER_ERR: u32 = 0x0001_0000;
/// TX timestamp status
pub const TX_TIMESTAMP_STATUS: u32 = 0x0002_0000;
/// VLAN insertion control shift (2 bits)
pub const VLAN_INSERT_CTRL_SHIFT: u32 = 18;
/// VLAN insertion control mask
pub const VLAN_INSERT_CTRL_MASK: u32 = 0x000C_0000;
/// Second address chained
pub const SECOND_ADDR_CHAINED: u32 = 0x0010_0000;
/// Transmit end of ring
pub const TX_END_OF_RING: u32 = 0x0020_0000;
/// Checksum insertion control shift (2 bits)
pub const CHECKSUM_INSERT_SHIFT: u32 = 22;
/// Checksum insertion control mask
pub const CHECKSUM_INSERT_MASK: u32 = 0x00C0_0000;
/// CRC replacement control
pub const CRC_REPLACE: u32 = 0x0100_0000;
/// Transmit timestamp enable
pub const TX_TIMESTAMP_EN: u32 = 0x0200_0000;
/// Disable padding
pub const DISABLE_PAD: u32 = 0x0400_0000;
/// Disable CRC
pub const DISABLE_CRC: u32 = 0x0800_0000;
/// First segment of the frame
pub const FIRST_SEGMENT: u32 = 0x1000_0000;
/// Last segment of the frame
pub const LAST_SEGMENT: u32 = 0x2000_0000;
/// Interrupt on completion
pub const INTERRUPT_ON_COMPLETE: u32 = 0x4000_0000;
/// OWN: set while the DMA owns the descriptor
pub const OWN: u32 = 0x8000_0000;
/// All TX error bits
pub const ALL_ERRORS: u32 = UNDERFLOW_ERR | EXCESSIVE_DEFERRAL | EXCESSIVE_COLLISION
    | LATE_COLLISION | NO_CARRIER | LOSS_OF_CARRIER | IP_PAYLOAD_ERR | JABBER_TIMEOUT
    | IP_HEADER_ERR;
/// Control flags preserved on the first segment
pub const FS_CTRL_FLAGS: u32 = VLAN_INSERT_CTRL_MASK | TX_TIMESTAMP_EN | DISABLE_PAD
    | DISABLE_CRC;
/// Control flags preserved on the last segment
pub const LS_CTRL_FLAGS: u32 = CHECKSUM_INSERT_MASK | CRC_REPLACE | INTERRUPT_ON_COMPLETE;

} // verus!
