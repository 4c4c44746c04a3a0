//! Basic Mode Control Register bits.

use vstd::prelude::*;

verus! {

/// Software reset (self-clearing)
pub const RESET: u16 = 0x8000;
/// Loopback mode
pub const LOOPBACK: u16 = 0x4000;
/// Speed select: 100 Mbps
pub const SPEED_100: u16 = 0x2000;
/// Auto-negotiation enable
pub const AN_ENABLE: u16 = 0x1000;
/// Power down
pub const POWER_DOWN: u16 = 0x0800;
/// Electrically isolate from MII
pub const ISOLATE: u16 = 0x0400;
/// Restart auto-negotiation (self-clearing)
pub const AN_RESTART: u16 = 0x0200;
/// Duplex mode: full
pub const DUPLEX_FULL: u16 = 0x0100;

} // verus!
