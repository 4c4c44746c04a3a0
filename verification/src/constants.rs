//! Frame sizes, default buffer counts, timing, clock frequencies and the
//! other fixed values of the driver.

use vstd::prelude::*;

verus! {

/// Maximum Ethernet frame size, VLAN tag included, CRC excluded
pub const MAX_FRAME_SIZE: usize = 1522;
/// Maximum transmission unit (payload size)
pub const MTU: usize = 1500;
/// Ethernet header size (destination, source, type)
pub const ETH_HEADER_SIZE: usize = 14;
/// CRC size
pub const CRC_SIZE: usize = 4;
/// VLAN tag size
pub const VLAN_TAG_SIZE: usize = 4;
/// Default DMA buffer size
pub const DEFAULT_BUFFER_SIZE: usize = 1600;
/// Minimum Ethernet frame size, CRC excluded
pub const MIN_FRAME_SIZE: usize = 60;

/// Default number of RX buffers
pub const DEFAULT_RX_BUFFERS: usize = 10;
/// Default number of TX buffers
pub const DEFAULT_TX_BUFFERS: usize = 10;

/// Software reset timeout in milliseconds
pub const SOFT_RESET_TIMEOUT_MS: u32 = 100;
/// Interval between reset polls in microseconds
pub const RESET_POLL_INTERVAL_US: u32 = 100;
/// Polls of the MII busy bit before giving up
pub const MII_BUSY_TIMEOUT: u32 = 100_000;
/// Polls of a DMA flush before giving up
pub const FLUSH_TIMEOUT: u32 = 100_000;

/// RMII reference clock frequency
pub const RMII_CLK_HZ: u32 = 50_000_000;
/// MII clock frequency at 100 Mbps
pub const MII_100M_CLK_HZ: u32 = 25_000_000;
/// MII clock frequency at 10 Mbps
pub const MII_10M_CLK_HZ: u32 = 2_500_000;
/// Maximum MDC clock frequency (IEEE 802.3)
pub const MDC_MAX_FREQ_HZ: u32 = 2_500_000;

/// Maximum pause time, in units of 512 bit times
pub const PAUSE_TIME_MAX: u16 = 0xFFFF;
/// Default low water mark: free RX descriptors below which PAUSE is sent
pub const DEFAULT_FLOW_LOW_WATER: usize = 3;
/// Default high water mark: free RX descriptors above which PAUSE ends
pub const DEFAULT_FLOW_HIGH_WATER: usize = 6;

/// CSR clock range: system clock 60-100 MHz, MDC = clock / 42
pub const CSR_CLOCK_DIV_42: u32 = 0;
/// CSR clock range: system clock 100-150 MHz, MDC = clock / 62
pub const CSR_CLOCK_DIV_62: u32 = 1;
/// CSR clock range: system clock 20-35 MHz, MDC = clock / 16
pub const CSR_CLOCK_DIV_16: u32 = 2;
/// CSR clock range: system clock 35-60 MHz, MDC = clock / 26
pub const CSR_CLOCK_DIV_26: u32 = 3;
/// CSR clock range: system clock 150-250 MHz, MDC = clock / 102
pub const CSR_CLOCK_DIV_102: u32 = 4;
/// CSR clock range: system clock 250-300 MHz, MDC = clock / 124
pub const CSR_CLOCK_DIV_124: u32 = 5;

/// Default MAC address (locally administered)
pub const DEFAULT_MAC_ADDR: [u8; 6] = [0x02, 0x00, 0x00, 0x00, 0x00, 0x01];
/// MAC address length
pub const MAC_ADDR_LEN: usize = 6;

/// TX DMA process state shift in the status register
pub const TX_DMA_STATE_SHIFT: u32 = 20;
/// TX DMA process state mask (after shifting)
pub const TX_DMA_STATE_MASK: u32 = 0x7;
/// RX DMA process state shift in the status register
pub const RX_DMA_STATE_SHIFT: u32 = 17;
/// RX DMA process state mask (after shifting)
pub const RX_DMA_STATE_MASK: u32 = 0x7;

} // verus!
