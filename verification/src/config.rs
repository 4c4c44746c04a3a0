//! Driver configuration: link parameters, PHY interface, DMA burst length,
//! checksum offload, flow control, address filters and the driver state.

use vstd::prelude::*;
use crate::constants::{
    DEFAULT_FLOW_HIGH_WATER, DEFAULT_FLOW_LOW_WATER, DEFAULT_MAC_ADDR, MDC_MAX_FREQ_HZ,
    PAUSE_TIME_MAX, SOFT_RESET_TIMEOUT_MS,
};

verus! {

/// Link speed.
#[derive(Debug, Clone, Copy, PartialEq, Eq, Structural)]
pub enum Speed {
    /// 10 Mbps
    Mbps10,
    /// 100 Mbps
    Mbps100,
}

impl Default for Speed {
    /// 100 Mbps.
    fn default() -> (r: Self)
        ensures
            r == Speed::Mbps100,
    {
        Speed::Mbps100
    }
}

/// Duplex mode.
#[derive(Debug, Clone, Copy, PartialEq, Eq, Structural)]
pub enum Duplex {
    /// Half duplex
    Half,
    /// Full duplex
    Full,
}

impl Default for Duplex {
    /// Full duplex.
    fn default() -> (r: Self)
        ensures
            r == Duplex::Full,
    {
        Duplex::Full
    }
}

/// PHY interface.
#[derive(Debug, Clone, Copy, PartialEq, Eq, Structural)]
pub enum PhyInterface {
    /// Media Independent Interface (16 pins)
    Mii,
    /// Reduced Media Independent Interface (9 pins)
    Rmii,
}

impl Default for PhyInterface {
    /// RMII.
    fn default() -> (r: Self)
        ensures
            r == PhyInterface::Rmii,
    {
        PhyInterface::Rmii
    }
}

/// Source of the RMII reference clock.
#[derive(Debug, Clone, Copy, PartialEq, Eq, Structural)]
pub enum RmiiClockMode {
    /// 50 MHz clock from an external source (PHY or oscillator) on `gpio`
    ExternalInput {
        /// GPIO receiving the clock
        gpio: u8,
    },
    /// 50 MHz clock generated by the ESP32 APLL and output on `gpio`
    InternalOutput {
        /// GPIO driving the clock
        gpio: u8,
    },
}

impl Default for RmiiClockMode {
    /// External input on GPIO0.
    fn default() -> (r: Self)
        ensures
            r == (RmiiClockMode::ExternalInput { gpio: 0 }),
    {
        RmiiClockMode::ExternalInput { gpio: 0 }
    }
}

/// DMA burst length.
#[derive(Debug, Clone, Copy, PartialEq, Eq, Structural)]
pub enum DmaBurstLen {
    /// 1 beat per burst
    Burst1,
    /// 2 beats per burst
    Burst2,
    /// 4 beats per burst
    Burst4,
    /// 8 beats per burst
    Burst8,
    /// 16 beats per burst
    Burst16,
    /// 32 beats per burst
    Burst32,
}

/// The number of beats per burst of `b`.
pub open spec fn burst_beats(b: DmaBurstLen) -> u32 {
    match b {
        DmaBurstLen::Burst1 => 1,
        DmaBurstLen::Burst2 => 2,
        DmaBurstLen::Burst4 => 4,
        DmaBurstLen::Burst8 => 8,
        DmaBurstLen::Burst16 => 16,
        DmaBurstLen::Burst32 => 32,
    }
}

impl DmaBurstLen {
    /// The programmable burst length value for the bus mode register.
    pub fn to_pbl(self) -> (r: u32)
        ensures
            r == burst_beats(self),
    {
        match self {
            DmaBurstLen::Burst1 => 1,
            DmaBurstLen::Burst2 => 2,
            DmaBurstLen::Burst4 => 4,
            DmaBurstLen::Burst8 => 8,
            DmaBurstLen::Burst16 => 16,
            DmaBurstLen::Burst32 => 32,
        }
    }
}

impl Default for DmaBurstLen {
    /// 32 beats.
    fn default() -> (r: Self)
        ensures
            r == DmaBurstLen::Burst32,
    {
        DmaBurstLen::Burst32
    }
}

/// Number of perfect-match address filter slots besides the station address.
pub const MAC_FILTER_SLOTS: usize = 4;

/// What an address filter compares.
#[derive(Debug, Clone, Copy, PartialEq, Eq, Structural)]
pub enum MacFilterType {
    /// The destination address of received frames
    Destination,
    /// The source address of received frames
    Source,
}

impl Default for MacFilterType {
    /// Destination.
    fn default() -> (r: Self)
        ensures
            r == MacFilterType::Destination,
    {
        MacFilterType::Destination
    }
}

/// A perfect-match address filter entry.
#[derive(Debug, Clone, Copy, PartialEq, Eq)]
pub struct MacAddressFilter {
    /// The address to match
    pub address: [u8; 6],
    /// Whether the destination or the source address is compared
    pub filter_type: MacFilterType,
    /// Bytes left out of the comparison: bit `i` masks address byte `i`
    pub byte_mask: u8,
}

impl MacAddressFilter {
    /// Exact destination address filter.
    pub fn new(address: [u8; 6]) -> (r: Self)
        ensures
            r == (MacAddressFilter {
                address,
                filter_type: MacFilterType::Destination,
                byte_mask: 0,
            }),
    {
        MacAddressFilter { address, filter_type: MacFilterType::Destination, byte_mask: 0 }
    }

    /// Exact source address filter.
    pub fn source(address: [u8; 6]) -> (r: Self)
        ensures
            r == (MacAddressFilter { address, filter_type: MacFilterType::Source, byte_mask: 0 }),
    {
        MacAddressFilter { address, filter_type: MacFilterType::Source, byte_mask: 0 }
    }

    /// Destination address filter ignoring the bytes set in `byte_mask`.
    pub fn with_mask(address: [u8; 6], byte_mask: u8) -> (r: Self)
        ensures
            r == (MacAddressFilter {
                address,
                filter_type: MacFilterType::Destination,
                byte_mask,
            }),
    {
        MacAddressFilter { address, filter_type: MacFilterType::Destination, byte_mask }
    }
}

/// Checksum offload settings.
#[derive(Debug, Clone, Copy, PartialEq, Eq, Structural)]
pub struct ChecksumConfig {
    /// Verify IPv4/TCP/UDP checksums of received frames in hardware
    pub rx_checksum: bool,
    /// Checksum insertion for transmitted frames
    pub tx_checksum: TxChecksumMode,
}

impl Default for ChecksumConfig {
    /// No offload.
    fn default() -> (r: Self)
        ensures
            r == (ChecksumConfig { rx_checksum: false, tx_checksum: TxChecksumMode::Disabled }),
    {
        ChecksumConfig { rx_checksum: false, tx_checksum: TxChecksumMode::Disabled }
    }
}

/// IEEE 802.3 flow control (PAUSE frame) settings.
#[derive(Debug, Clone, Copy, PartialEq, Eq, Structural)]
pub struct FlowControlConfig {
    /// Whether flow control is enabled
    pub enabled: bool,
    /// Free RX descriptors below which a PAUSE frame is sent
    pub low_water_mark: usize,
    /// Free RX descriptors above which the pause ends
    pub high_water_mark: usize,
    /// Pause time in units of 512 bit times
    pub pause_time: u16,
    /// When to retransmit PAUSE before the pause time runs out
    pub pause_low_threshold: PauseLowThreshold,
    /// Also detect unicast PAUSE frames
    pub unicast_pause_detect: bool,
}

/// The flow control settings with the given state and water marks and the
/// default pause parameters.
pub open spec fn flow_config(enabled: bool, low: usize, high: usize) -> FlowControlConfig {
    FlowControlConfig {
        enabled,
        low_water_mark: low,
        high_water_mark: high,
        pause_time: PAUSE_TIME_MAX,
        pause_low_threshold: PauseLowThreshold::Minus4,
        unicast_pause_detect: false,
    }
}

impl Default for FlowControlConfig {
    /// Disabled, default water marks, maximum pause time.
    fn default() -> (r: Self)
        ensures
            r == flow_config(false, DEFAULT_FLOW_LOW_WATER, DEFAULT_FLOW_HIGH_WATER),
    {
        FlowControlConfig {
            enabled: false,
            low_water_mark: DEFAULT_FLOW_LOW_WATER,
            high_water_mark: DEFAULT_FLOW_HIGH_WATER,
            pause_time: PAUSE_TIME_MAX,
            pause_low_threshold: PauseLowThreshold::Minus4,
            unicast_pause_detect: false,
        }
    }
}

impl FlowControlConfig {
    /// Enabled flow control with the given water marks.
    pub fn with_water_marks(low: usize, high: usize) -> (r: Self)
        ensures
            r == flow_config(true, low, high),
    {
        FlowControlConfig {
            enabled: true,
            low_water_mark: low,
            high_water_mark: high,
            pause_time: PAUSE_TIME_MAX,
            pause_low_threshold: PauseLowThreshold::Minus4,
            unicast_pause_detect: false,
        }
    }
}

/// When to retransmit PAUSE, in slot times before the pause time runs out.
#[derive(Debug, Clone, Copy, PartialEq, Eq, Structural)]
pub enum PauseLowThreshold {
    /// 4 slot times
    Minus4,
    /// 28 slot times
    Minus28,
    /// 144 slot times
    Minus144,
    /// 256 slot times
    Minus256,
}

/// The register field value of `t`.
pub open spec fn threshold_bits(t: PauseLowThreshold) -> u8 {
    match t {
        PauseLowThreshold::Minus4 => 0,
        PauseLowThreshold::Minus28 => 1,
        PauseLowThreshold::Minus144 => 2,
        PauseLowThreshold::Minus256 => 3,
    }
}

impl PauseLowThreshold {
    /// The register field value.
    pub fn bits(self) -> (r: u8)
        ensures
            r == threshold_bits(self),
    {
        match self {
            PauseLowThreshold::Minus4 => 0,
            PauseLowThreshold::Minus28 => 1,
            PauseLowThreshold::Minus144 => 2,
            PauseLowThreshold::Minus256 => 3,
        }
    }
}

impl Default for PauseLowThreshold {
    /// 4 slot times.
    fn default() -> (r: Self)
        ensures
            r == PauseLowThreshold::Minus4,
    {
        PauseLowThreshold::Minus4
    }
}

/// Checksum insertion for transmitted frames.
#[derive(Debug, Clone, Copy, PartialEq, Eq, Structural)]
pub enum TxChecksumMode {
    /// No checksum insertion
    Disabled,
    /// IPv4 header checksum only
    IpHeaderOnly,
    /// IPv4 header and TCP/UDP/ICMP payload, pseudo-header given
    IpAndPayload,
    /// IPv4 header and payload, pseudo-header computed in hardware
    Full,
}

/// The descriptor field value of `m`.
pub open spec fn checksum_bits(m: TxChecksumMode) -> u32 {
    match m {
        TxChecksumMode::Disabled => 0,
        TxChecksumMode::IpHeaderOnly => 1,
        TxChecksumMode::IpAndPayload => 2,
        TxChecksumMode::Full => 3,
    }
}

impl TxChecksumMode {
    /// The descriptor field value.
    pub fn bits(self) -> (r: u32)
        ensures
            r == checksum_bits(self),
    {
        match self {
            TxChecksumMode::Disabled => 0,
            TxChecksumMode::IpHeaderOnly => 1,
            TxChecksumMode::IpAndPayload => 2,
            TxChecksumMode::Full => 3,
        }
    }
}

impl Default for TxChecksumMode {
    /// Disabled.
    fn default() -> (r: Self)
        ensures
            r == TxChecksumMode::Disabled,
    {
        TxChecksumMode::Disabled
    }
}

/// Driver configuration.
#[derive(Debug, Clone, Copy, PartialEq, Eq)]
pub struct EmacConfig {
    /// PHY interface
    pub phy_interface: PhyInterface,
    /// RMII clock source
    pub rmii_clock: RmiiClockMode,
    /// MAC address
    pub mac_address: [u8; 6],
    /// DMA burst length
    pub dma_burst_len: DmaBurstLen,
    /// Software reset timeout in milliseconds
    pub sw_reset_timeout_ms: u32,
    /// MDC clock frequency in Hz
    pub mdc_freq_hz: u32,
    /// Promiscuous mode
    pub promiscuous: bool,
    /// Checksum offload
    pub checksum: ChecksumConfig,
    /// Flow control
    pub flow_control: FlowControlConfig,
}

/// The configuration `new` returns: RMII with an external clock on GPIO0,
/// the default MAC address, 32-beat bursts, no offload, flow control off.
pub open spec fn default_config() -> EmacConfig {
    EmacConfig {
        phy_interface: PhyInterface::Rmii,
        rmii_clock: RmiiClockMode::ExternalInput { gpio: 0 },
        mac_address: DEFAULT_MAC_ADDR,
        dma_burst_len: DmaBurstLen::Burst32,
        sw_reset_timeout_ms: SOFT_RESET_TIMEOUT_MS,
        mdc_freq_hz: MDC_MAX_FREQ_HZ,
        promiscuous: false,
        checksum: ChecksumConfig { rx_checksum: false, tx_checksum: TxChecksumMode::Disabled },
        flow_control: flow_config(false, DEFAULT_FLOW_LOW_WATER, DEFAULT_FLOW_HIGH_WATER),
    }
}

impl Default for EmacConfig {
    /// Same as `new`.
    fn default() -> (r: Self)
        ensures
            r == default_config(),
    {
        EmacConfig::new()
    }
}

impl EmacConfig {
    /// The default configuration for the ESP32 with an RMII PHY.
    pub fn new() -> (r: Self)
        ensures
            r == default_config(),
    {
        EmacConfig {
            phy_interface: PhyInterface::Rmii,
            rmii_clock: RmiiClockMode::ExternalInput { gpio: 0 },
            mac_address: DEFAULT_MAC_ADDR,
            dma_burst_len: DmaBurstLen::Burst32,
            sw_reset_timeout_ms: SOFT_RESET_TIMEOUT_MS,
            mdc_freq_hz: MDC_MAX_FREQ_HZ,
            promiscuous: false,
            checksum: ChecksumConfig { rx_checksum: false, tx_checksum: TxChecksumMode::Disabled },
            flow_control: FlowControlConfig {
                enabled: false,
                low_water_mark: DEFAULT_FLOW_LOW_WATER,
                high_water_mark: DEFAULT_FLOW_HIGH_WATER,
                pause_time: PAUSE_TIME_MAX,
                pause_low_threshold: PauseLowThreshold::Minus4,
                unicast_pause_detect: false,
            },
        }
    }

    /// Same as `new`: RMII with an external 50 MHz clock on GPIO0.
    pub fn rmii_esp32_default() -> (r: Self)
        ensures
            r == default_config(),
    {
        Self::new()
    }

    /// Set the PHY interface.
    pub fn with_phy_interface(self, interface: PhyInterface) -> (r: Self)
        ensures
            r == (EmacConfig { phy_interface: interface, ..self }),
    {
        EmacConfig { phy_interface: interface, ..self }
    }

    /// Set the RMII clock source.
    pub fn with_rmii_clock(self, clock: RmiiClockMode) -> (r: Self)
        ensures
            r == (EmacConfig { rmii_clock: clock, ..self }),
    {
        EmacConfig { rmii_clock: clock, ..self }
    }

    /// Set the MAC address.
    pub fn with_mac_address(self, addr: [u8; 6]) -> (r: Self)
        ensures
            r == (EmacConfig { mac_address: addr, ..self }),
    {
        EmacConfig { mac_address: addr, ..self }
    }

    /// Set the DMA burst length.
    pub fn with_dma_burst_len(self, burst_len: DmaBurstLen) -> (r: Self)
        ensures
            r == (EmacConfig { dma_burst_len: burst_len, ..self }),
    {
        EmacConfig { dma_burst_len: burst_len, ..self }
    }

    /// Set the software reset timeout.
    pub fn with_reset_timeout_ms(self, timeout_ms: u32) -> (r: Self)
        ensures
            r == (EmacConfig { sw_reset_timeout_ms: timeout_ms, ..self }),
    {
        EmacConfig { sw_reset_timeout_ms: timeout_ms, ..self }
    }

    /// Set the MDC clock frequency.
    pub fn with_mdc_freq_hz(self, freq_hz: u32) -> (r: Self)
        ensures
            r == (EmacConfig { mdc_freq_hz: freq_hz, ..self }),
    {
        EmacConfig { mdc_freq_hz: freq_hz, ..self }
    }

    /// Enable or disable promiscuous mode.
    pub fn with_promiscuous(self, enabled: bool) -> (r: Self)
        ensures
            r == (EmacConfig { promiscuous: enabled, ..self }),
    {
        EmacConfig { promiscuous: enabled, ..self }
    }

    /// Set the checksum offload settings.
    pub fn with_checksum(self, checksum: ChecksumConfig) -> (r: Self)
        ensures
            r == (EmacConfig { checksum, ..self }),
    {
        EmacConfig { checksum, ..self }
    }

    /// Enable or disable RX checksum offload.
    pub fn with_rx_checksum(self, enabled: bool) -> (r: Self)
        ensures
            r == (EmacConfig {
                checksum: ChecksumConfig { rx_checksum: enabled, ..self.checksum },
                ..self
            }),
    {
        EmacConfig { checksum: ChecksumConfig { rx_checksum: enabled, ..self.checksum }, ..self }
    }

    /// Set the TX checksum insertion mode.
    pub fn with_tx_checksum(self, mode: TxChecksumMode) -> (r: Self)
        ensures
            r == (EmacConfig {
                checksum: ChecksumConfig { tx_checksum: mode, ..self.checksum },
                ..self
            }),
    {
        EmacConfig { checksum: ChecksumConfig { tx_checksum: mode, ..self.checksum }, ..self }
    }

    /// Set the flow control settings.
    pub fn with_flow_control(self, flow_control: FlowControlConfig) -> (r: Self)
        ensures
            r == (EmacConfig { flow_control, ..self }),
    {
        EmacConfig { flow_control, ..self }
    }

    /// Enable or disable flow control, keeping its other settings.
    pub fn with_flow_control_enabled(self, enabled: bool) -> (r: Self)
        ensures
            r == (EmacConfig {
                flow_control: FlowControlConfig { enabled, ..self.flow_control },
                ..self
            }),
    {
        EmacConfig { flow_control: FlowControlConfig { enabled, ..self.flow_control }, ..self }
    }
}

/// Driver state.
#[derive(Debug, Clone, Copy, PartialEq, Eq, Structural)]
pub enum State {
    /// Not initialized
    Uninitialized,
    /// Initialized, not running
    Initialized,
    /// Running: transmitting and receiving
    Running,
    /// Stopped, may be started again
    Stopped,
}

impl Default for State {
    /// Uninitialized.
    fn default() -> (r: Self)
        ensures
            r == State::Uninitialized,
    {
        State::Uninitialized
    }
}

} // verus!
