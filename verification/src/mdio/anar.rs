//! Auto-Negotiation Advertisement Register bits.

use vstd::prelude::*;

verus! {

/// Next page
pub const NEXT_PAGE: u16 = 0x8000;
/// Acknowledge
pub const ACK: u16 = 0x4000;
/// Remote fault
pub const REMOTE_FAULT: u16 = 0x2000;
/// PAUSE capable
pub const PAUSE: u16 = 0x0400;
/// 100BASE-T4
pub const T4: u16 = 0x0200;
/// 100BASE-TX full duplex
pub const TX_FD: u16 = 0x0100;
/// 100BASE-TX half duplex
pub const TX_HD: u16 = 0x0080;
/// 10BASE-T full duplex
pub const T10_FD: u16 = 0x0040;
/// 10BASE-T half duplex
pub const T10_HD: u16 = 0x0020;
/// Selector field mask
pub const SELECTOR: u16 = 0x001F;
/// Selector: IEEE 802.3
pub const SELECTOR_IEEE802_3: u16 = 0x0001;

} // verus!
