//! LAN8720A vendor-specific register addresses.

use vstd::prelude::*;

verus! {

/// Mode Control/Status Register
pub const MCSR: u8 = 17;
/// Special Modes Register
pub const SMR: u8 = 18;
/// Symbol Error Counter Register
pub const SECR: u8 = 26;
/// Special Control/Status Indications Register
pub const SCSIR: u8 = 27;
/// Interrupt Source Register
pub const ISR: u8 = 29;
/// Interrupt Mask Register
pub const IMR: u8 = 30;
/// PHY Special Control/Status Register
pub const PSCSR: u8 = 31;

} // verus!
