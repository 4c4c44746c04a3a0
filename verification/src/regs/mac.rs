//! MAC block registers: configuration, frame filter, MII management, flow
//! control, VLAN tag and the address filter slots.

use vstd::prelude::*;

verus! {

/// Configuration: receiver enable
pub const GMACCONFIG_RE: u32 = 0x0000_0004;
/// Configuration: transmitter enable
pub const GMACCONFIG_TE: u32 = 0x0000_0008;
/// Configuration: automatic pad/CRC stripping
pub const GMACCONFIG_ACS: u32 = 0x0000_0080;
/// Configuration: checksum offload
pub const GMACCONFIG_IPC: u32 = 0x0000_0400;
/// Configuration: duplex mode (full)
pub const GMACCONFIG_DM: u32 = 0x0000_0800;
/// Configuration: speed (100 Mbps)
pub const GMACCONFIG_FES: u32 = 0x0000_4000;
/// Configuration: port select (MII/RMII)
pub const GMACCONFIG_PS: u32 = 0x0000_8000;
/// Configuration: jabber disable
pub const GMACCONFIG_JD: u32 = 0x0040_0000;
/// Configuration: watchdog disable
pub const GMACCONFIG_WD: u32 = 0x0080_0000;

/// Frame filter: promiscuous mode
pub const GMACFF_PR: u32 = 0x0000_0001;
/// Frame filter: hash unicast
pub const GMACFF_HUC: u32 = 0x0000_0002;
/// Frame filter: hash multicast
pub const GMACFF_HMC: u32 = 0x0000_0004;
/// Frame filter: pass all multicast
pub const GMACFF_PM: u32 = 0x0000_0010;
/// Frame filter: disable broadcast frames
pub const GMACFF_DBF: u32 = 0x0000_0020;
/// Frame filter: VLAN tag filter enable
pub const GMACFF_VTFE: u32 = 0x0001_0000;

/// MII address: busy
pub const GMACMIIADDR_GB: u32 = 0x0000_0001;
/// MII address: write
pub const GMACMIIADDR_GW: u32 = 0x0000_0002;
/// MII address: CSR clock range shift
pub const GMACMIIADDR_CR_SHIFT: u32 = 2;
/// MII address: CSR clock range mask
pub const GMACMIIADDR_CR_MASK: u32 = 0x0000_003C;
/// MII address: register shift
pub const GMACMIIADDR_GR_SHIFT: u32 = 6;
/// MII address: register mask
pub const GMACMIIADDR_GR_MASK: u32 = 0x0000_07C0;
/// MII address: PHY address shift
pub const GMACMIIADDR_PA_SHIFT: u32 = 11;
/// MII address: PHY address mask
pub const GMACMIIADDR_PA_MASK: u32 = 0x0000_F800;

/// Flow control: flow control busy / backpressure activate
pub const GMACFC_FCBBPA: u32 = 0x0000_0001;
/// Flow control: transmit flow control enable
pub const GMACFC_TFE: u32 = 0x0000_0002;
/// Flow control: receive flow control enable
pub const GMACFC_RFE: u32 = 0x0000_0004;
/// Flow control: unicast pause frame detect
pub const GMACFC_UP: u32 = 0x0000_0008;
/// Flow control: pause low threshold shift
pub const GMACFC_PLT_SHIFT: u32 = 4;
/// Flow control: pause low threshold mask
pub const GMACFC_PLT_MASK: u32 = 0x0000_0030;
/// Flow control: pause time shift
pub const GMACFC_PT_SHIFT: u32 = 16;

/// VLAN tag: VLAN identifier mask
pub const GMACVLAN_VID_MASK: u32 = 0x0000_0FFF;
/// VLAN tag: 12-bit VLAN identifier comparison
pub const GMACVLAN_ETV: u32 = 0x0001_0000;
/// VLAN tag: inverse match
pub const GMACVLAN_VTIM: u32 = 0x0002_0000;
/// VLAN tag: S-VLAN
pub const GMACVLAN_ESVL: u32 = 0x0004_0000;

/// Address slot high word: address enable
pub const GMACADDR_AE: u32 = 0x8000_0000;
/// Address slot high word: source address comparison
pub const GMACADDR_SA: u32 = 0x4000_0000;
/// Address slot high word: mask byte control shift
pub const GMACADDR_MBC_SHIFT: u32 = 24;
/// Address slot high word: mask byte control mask
pub const GMACADDR_MBC_MASK: u32 = 0x3F00_0000;

} // verus!
