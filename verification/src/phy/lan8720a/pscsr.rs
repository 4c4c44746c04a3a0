//! PHY Special Control/Status Register fields.

use vstd::prelude::*;

verus! {

/// Auto-negotiation done
pub const AUTODONE: u16 = 0x1000;
/// Speed indication field mask
pub const HCDSPEED_MASK: u16 = 0x001C;
/// Speed indication: 10BASE-T half duplex
pub const HCDSPEED_10HD: u16 = 0x0004;
/// Speed indication: 10BASE-T full duplex
pub const HCDSPEED_10FD: u16 = 0x0014;
/// Speed indication: 100BASE-TX half duplex
pub const HCDSPEED_100HD: u16 = 0x0008;
/// Speed indication: 100BASE-TX full duplex
pub const HCDSPEED_100FD: u16 = 0x0018;

} // verus!
