//! EMAC extension registers: the PHY interface configuration word.

use vstd::prelude::*;

verus! {

/// PHY interface configuration: RMII mode (MII when clear)
pub const EX_PHYINF_RMII_EN: u32 = 0x0000_8000;
/// PHY interface configuration: RMII clock generated internally
pub const EX_PHYINF_RMII_CLK_SEL: u32 = 0x0000_0001;
/// PHY interface configuration: external RMII RX clock enable
pub const EX_PHYINF_RMII_EXT_RX_CLK_EN: u32 = 0x0000_0002;
/// PHY interface configuration: RMII reference clock output enable
pub const EX_PHYINF_RMII_REF_CLK_OUT_EN: u32 = 0x0000_0004;
/// PHY interface configuration: clock inversion
pub const EX_PHYINF_CLK_INV: u32 = 0x0000_0008;

} // verus!
