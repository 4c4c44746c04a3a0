//! Special Modes Register fields.

use vstd::prelude::*;

verus! {

/// Mode field mask
pub const MODE_MASK: u16 = 0x00E0;
/// 10BASE-T half duplex, auto-negotiation off
pub const MODE_10HD: u16 = 0x0000;
/// 10BASE-T full duplex, auto-negotiation off
pub const MODE_10FD: u16 = 0x0020;
/// 100BASE-TX half duplex, auto-negotiation off
pub const MODE_100HD: u16 = 0x0040;
/// 100BASE-TX full duplex, auto-negotiation off
pub const MODE_100FD: u16 = 0x0060;
/// 100BASE-TX half duplex advertised, auto-negotiation on
pub const MODE_100HD_AN: u16 = 0x0080;
/// Repeater mode
pub const MODE_REPEATER: u16 = 0x00A0;
/// Power-down mode
pub const MODE_PWRDOWN: u16 = 0x00C0;
/// All capable, auto-negotiation on
pub const MODE_ALL_AN: u16 = 0x00E0;
/// PHY address field mask
pub const PHYAD_MASK: u16 = 0x001F;

} // verus!
