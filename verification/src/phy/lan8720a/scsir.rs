//! Special Control/Status Indications Register bits.

use vstd::prelude::*;

verus! {

/// Manual Auto-MDIX control
pub const AMDIXCTRL: u16 = 0x8000;
/// Manual channel select: MDIX
pub const CH_SELECT: u16 = 0x2000;
/// SQE test disable
pub const SQEOFF: u16 = 0x0800;
/// Polarity of 10BASE-T reversed
pub const XPOL: u16 = 0x0010;

} // verus!
