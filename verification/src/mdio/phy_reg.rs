//! IEEE 802.3 clause 22 PHY register addresses.

use vstd::prelude::*;

verus! {

/// Basic Mode Control Register
pub const BMCR: u8 = 0;
/// Basic Mode Status Register
pub const BMSR: u8 = 1;
/// PHY Identifier 1
pub const PHYIDR1: u8 = 2;
/// PHY Identifier 2
pub const PHYIDR2: u8 = 3;
/// Auto-Negotiation Advertisement Register
pub const ANAR: u8 = 4;
/// Auto-Negotiation Link Partner Ability Register
pub const ANLPAR: u8 = 5;
/// Auto-Negotiation Expansion Register
pub const ANER: u8 = 6;
/// Auto-Negotiation Next Page Transmit
pub const ANNPTR: u8 = 7;
/// Auto-Negotiation Next Page Receive
pub const ANNPRR: u8 = 8;
/// MMD Access Control
pub const MMD_CTRL: u8 = 13;
/// MMD Access Data
pub const MMD_DATA: u8 = 14;
/// Extended Status
pub const ESTATUS: u8 = 15;

} // verus!
