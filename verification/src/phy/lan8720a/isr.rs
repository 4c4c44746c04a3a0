//! Interrupt Source and Mask Register bits.

use vstd::prelude::*;

verus! {

/// Energy detected
pub const ENERGYON: u16 = 0x0080;
/// Auto-negotiation complete
pub const AN_COMPLETE: u16 = 0x0040;
/// Remote fault detected
pub const REMOTE_FAULT: u16 = 0x0020;
/// Link down
pub const LINK_DOWN: u16 = 0x0010;
/// Auto-negotiation LP acknowledge
pub const AN_LP_ACK: u16 = 0x0008;
/// Parallel detection fault
pub const PD_FAULT: u16 = 0x0004;
/// Auto-negotiation page received
pub const AN_PAGE_RX: u16 = 0x0002;

} // verus!
