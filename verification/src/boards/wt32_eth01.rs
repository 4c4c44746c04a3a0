//! WT32-ETH01: ESP32 with a LAN8720A PHY, RMII clocked by an external
//! 50 MHz oscillator on GPIO0, PHY at address 1.

use vstd::prelude::*;
use crate::config::{EmacConfig, PhyInterface, RmiiClockMode, default_config};
use crate::phy::lan8720a::Lan8720a;

verus! {

/// WT32-ETH01 board constants and helpers.
pub struct Wt32Eth01;

impl Wt32Eth01 {
    /// PHY address (PHYAD0 is pulled high on the board)
    pub const PHY_ADDR: u8 = 1;
    /// Expected PHY identifier (LAN8720A)
    pub const PHY_ID: u32 = 0x0007_C0F0;
    /// PHY identifier mask (revision bits ignored)
    pub const PHY_ID_MASK: u32 = 0xFFFF_FFF0;
    /// MDC GPIO
    pub const MDC_GPIO: u8 = 23;
    /// MDIO GPIO
    pub const MDIO_GPIO: u8 = 18;
    /// Reference clock input GPIO (50 MHz from the oscillator)
    pub const REF_CLK_GPIO: u8 = 0;
    /// Oscillator enable GPIO: high powers the oscillator
    pub const CLK_EN_GPIO: u8 = 16;
    /// Reference clock frequency in Hz
    pub const REF_CLK_HZ: u32 = 50_000_000;
    /// TX data 0 GPIO
    pub const TXD0_GPIO: u8 = 19;
    /// TX data 1 GPIO
    pub const TXD1_GPIO: u8 = 22;
    /// TX enable GPIO
    pub const TX_EN_GPIO: u8 = 21;
    /// RX data 0 GPIO
    pub const RXD0_GPIO: u8 = 25;
    /// RX data 1 GPIO
    pub const RXD1_GPIO: u8 = 26;
    /// Carrier sense / data valid GPIO
    pub const CRS_DV_GPIO: u8 = 27;
    /// PHY reset GPIO: not connected, the PHY is reset through BMCR
    pub const PHY_RST_GPIO: Option<u8> = None;
    /// Time to wait after enabling the oscillator, in milliseconds
    pub const OSC_STARTUP_MS: u32 = 10;
    /// Time to wait after a PHY reset, in milliseconds
    pub const PHY_RESET_MS: u32 = 50;
    /// Board name
    pub const BOARD_NAME: &'static str = "WT32-ETH01";
    /// Board manufacturer
    pub const MANUFACTURER: &'static str = "Wireless-Tag";
    /// ESP32 module on the board
    pub const MODULE: &'static str = "WT32-S1";

    /// Whether `id` names the board's PHY, any revision.
    pub fn is_valid_phy_id(id: u32) -> (r: bool)
        ensures
            r == (id & 0xFFFF_FFF0u32 == 0x0007_C0F0u32),
    {
        (id & Self::PHY_ID_MASK) == Self::PHY_ID
    }

    /// The board's configuration: RMII, external reference clock on GPIO0.
    pub fn emac_config() -> (r: EmacConfig)
        ensures
            r == (EmacConfig {
                phy_interface: PhyInterface::Rmii,
                rmii_clock: RmiiClockMode::ExternalInput { gpio: 0 },
                ..default_config()
            }),
    {
        EmacConfig::rmii_esp32_default().with_phy_interface(PhyInterface::Rmii).with_rmii_clock(
            RmiiClockMode::ExternalInput { gpio: Self::REF_CLK_GPIO },
        )
    }

    /// The board's configuration with the MAC address `mac`.
    pub fn emac_config_with_mac(mac: [u8; 6]) -> (r: EmacConfig)
        ensures
            r == (EmacConfig {
                phy_interface: PhyInterface::Rmii,
                rmii_clock: RmiiClockMode::ExternalInput { gpio: 0 },
                mac_address: mac,
                ..default_config()
            }),
    {
        Self::emac_config().with_mac_address(mac)
    }

    /// The driver for the board's PHY.
    pub fn lan8720a() -> (r: Lan8720a)
        ensures
            r.phy_addr() == 1,
            !r.last_link_up,
    {
        Lan8720a::new(Self::PHY_ADDR)
    }

    /// A description of the board.
    pub fn description() -> (r: &'static str)
        ensures
            r@ == "WT32-ETH01: ESP32 + LAN8720A Ethernet (RMII, 50MHz external clock, PHY addr 1)"@,
    {
        "WT32-ETH01: ESP32 + LAN8720A Ethernet (RMII, 50MHz external clock, PHY addr 1)"
    }
}

} // verus!
