//! RX descriptor word 4: extended status.

use vstd::prelude::*;

verus! {

/// IP payload type shift (3 bits)
pub const IP_PAYLOAD_TYPE_SHIFT: u32 = 0;
/// IP payload type mask
pub const IP_PAYLOAD_TYPE_MASK: u32 = 0x7;
/// IP header error
pub const IP_HEADER_ERR: u32 = 0x0000_0008;
/// IP payload error
pub const IP_PAYLOAD_ERR: u32 = 0x0000_0010;
/// IP checksum bypassed
pub const IP_CHECKSUM_BYPASS: u32 = 0x0000_0020;
/// IPv4 packet received
pub const IPV4_PKT: u32 = 0x0000_0040;
/// IPv6 packet received
pub const IPV6_PKT: u32 = 0x0000_0080;
/// PTP message type shift (4 bits)
pub const PTP_MSG_TYPE_SHIFT: u32 = 8;
/// PTP message type mask
pub const PTP_MSG_TYPE_MASK: u32 = 0x0000_0F00;
/// PTP frame type
pub const PTP_FRAME_TYPE: u32 = 0x0000_1000;
/// PTP version
pub const PTP_VERSION: u32 = 0x0000_2000;
/// Timestamp dropped
pub const TIMESTAMP_DROPPED: u32 = 0x0000_4000;
/// AV tagged packet
pub const AV_TAGGED: u32 = 0x0001_0000;
/// AV tagged packet control/data
pub const AV_CTRL_DATA: u32 = 0x0002_0000;
/// Layer 3 filter match
pub const L3_FILTER_MATCH: u32 = 0x0100_0000;
/// Layer 4 filter match
pub const L4_FILTER_MATCH: u32 = 0x0200_0000;
/// Layer 3/4 filter number shift
pub const L3_L4_FILTER_NUM_SHIFT: u32 = 26;
/// Layer 3/4 filter number mask
pub const L3_L4_FILTER_NUM_MASK: u32 = 0x0C00_0000;

} // verus!
