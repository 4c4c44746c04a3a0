//! The EMAC driver: state machine, frame transmission and reception, link
//! settings, address filtering and IEEE 802.3 flow control.
//!
//! The driver keeps an image of the MAC and DMA register words it programs
//! ([`EmacRegisters`]); every operation here updates the image, and the
//! hardware layer writes the image out, performs the steps that wait on the
//! hardware (software reset, DMA stop, FIFO flush, MDIO transfers) and
//! issues the poll demands.

use vstd::prelude::*;
use crate::config::{
    Duplex, EmacConfig, FlowControlConfig, MacAddressFilter, MacFilterType, Speed, State,
    default_config, burst_beats, threshold_bits,
};
use crate::dma::{DmaEngine, tx_owned_stop, rx_owned_stop, rx_last_count, rx_owned_count, desc_addr, rx_peek};
use crate::descriptor::rx::{rx_owned, rx_last, rx_zeroed};
use crate::descriptor::tx::tx_zeroed;
use crate::error::{ConfigError, DmaError, Error, IoError, Result};
use crate::mac_regs::{
    EmacRegisters, encode_addr_high, encode_addr_low, addr_high_bytes, addr_low_bytes,
    slot_enabled, slot_holds, first_holding, first_free, enabled_from, filter_high,
    filter_high_word, flow_control_word, flow_word, hash_index, hash_bucket, bucket_bit, lemma_filter_high_word,
};
use crate::regs::dma::{
    DMABUSMODE_AAL, DMABUSMODE_ATDS, DMABUSMODE_FB, DMABUSMODE_PBL_MASK, DMABUSMODE_PBL_SHIFT,
    DMABUSMODE_USP, DMAIE_DEFAULT, DMAIE_RIE, DMAIE_TIE, DMAOPERATION_RSF, DMAOPERATION_SR,
    DMAOPERATION_ST, DMAOPERATION_TSF,
};
use crate::constants::{CSR_CLOCK_DIV_42, TX_DMA_STATE_MASK, TX_DMA_STATE_SHIFT};
use crate::regs::mac::{
    GMACMIIADDR_CR_MASK, GMACMIIADDR_CR_SHIFT, GMACMIIADDR_GB, GMACMIIADDR_GR_SHIFT, GMACMIIADDR_GW,
    GMACMIIADDR_PA_SHIFT, GMACADDR_AE, GMACCONFIG_ACS, GMACCONFIG_DM, GMACCONFIG_FES, GMACCONFIG_IPC, GMACCONFIG_JD,
    GMACCONFIG_PS, GMACCONFIG_RE, GMACCONFIG_TE, GMACCONFIG_WD, GMACFC_FCBBPA, GMACFF_DBF,
    GMACFF_HMC, GMACFF_HUC, GMACFF_PM, GMACFF_PR, GMACFF_VTFE, GMACVLAN_ESVL, GMACVLAN_ETV,
    GMACVLAN_VID_MASK, GMACVLAN_VTIM,
};

verus! {

/// `word` with the bits of `mask` set if `on`, cleared otherwise.
pub open spec fn with_bits(word: u32, mask: u32, on: bool) -> u32 {
    if on {
        word | mask
    } else {
        word & !mask
    }
}

/// `word` with the bits of `mask` set if `on`, cleared otherwise.
pub fn set_bits(word: u32, mask: u32, on: bool) -> (r: u32)
    ensures
        r == with_bits(word, mask, on),
{
    if on {
        word | mask
    } else {
        word & !mask
    }
}

/// The MAC configuration word `init` programs: MII/RMII port, 100 Mbps, full
/// duplex, pad/CRC stripping, jabber and watchdog off, checksum offload if
/// asked for.
pub open spec fn mac_config_default(rx_checksum: bool) -> u32 {
    GMACCONFIG_PS | GMACCONFIG_FES | GMACCONFIG_DM | GMACCONFIG_ACS | GMACCONFIG_JD
        | GMACCONFIG_WD | (if rx_checksum {
        GMACCONFIG_IPC
    } else {
        0
    })
}

/// The frame filter word `init` programs: pass all multicast, promiscuous if
/// asked for.
pub open spec fn frame_filter_default(promiscuous: bool) -> u32 {
    (if promiscuous {
        GMACFF_PR
    } else {
        0
    }) | GMACFF_PM
}

/// The DMA bus mode word for a burst length of `pbl` beats: fixed,
/// address-aligned bursts, separate RX burst length, 8-word descriptors.
pub open spec fn bus_mode_word(pbl: u32) -> u32 {
    DMABUSMODE_FB | DMABUSMODE_AAL | DMABUSMODE_USP | DMABUSMODE_ATDS | ((pbl
        << DMABUSMODE_PBL_SHIFT) & DMABUSMODE_PBL_MASK)
}

/// The VLAN tag word matching `vid`: 12-bit comparison if `vid_only`,
/// inverse match if `inverse`, S-VLAN if `svlan`.
pub open spec fn vlan_word(vid: u16, vid_only: bool, inverse: bool, svlan: bool) -> u32 {
    ((vid as u32) & GMACVLAN_VID_MASK) | (if vid_only {
        GMACVLAN_ETV
    } else {
        0
    }) | (if inverse {
        GMACVLAN_VTIM
    } else {
        0
    }) | (if svlan {
        GMACVLAN_ESVL
    } else {
        0
    })
}

/// The MII address word with which the driver reads (`is_write` false) or
/// writes register `reg` of the PHY at `phy_addr`: busy, the write flag, the
/// PHY address and the register shifted into place, MDC at the system clock
/// divided by 42.
pub open spec fn phy_access_word(phy_addr: u8, reg: u8, is_write: bool) -> u32 {
    GMACMIIADDR_GB | (if is_write {
        GMACMIIADDR_GW
    } else {
        0
    }) | ((phy_addr as u32) << GMACMIIADDR_PA_SHIFT) | ((reg as u32) << GMACMIIADDR_GR_SHIFT) | ((
    CSR_CLOCK_DIV_42 << GMACMIIADDR_CR_SHIFT) & GMACMIIADDR_CR_MASK)
}

/// The MII address word that starts a read (`is_write` false) or a write of
/// register `reg` of the PHY at `phy_addr`; the data register holds the
/// value to write before a write starts.
pub fn phy_access_command(phy_addr: u8, reg: u8, is_write: bool) -> (r: u32)
    ensures
        r == phy_access_word(phy_addr, reg, is_write),
{
    let gw = if is_write {
        GMACMIIADDR_GW
    } else {
        0
    };
    GMACMIIADDR_GB | gw | ((phy_addr as u32) << GMACMIIADDR_PA_SHIFT) | ((reg as u32)
        << GMACMIIADDR_GR_SHIFT) | ((CSR_CLOCK_DIV_42 << GMACMIIADDR_CR_SHIFT) & GMACMIIADDR_CR_MASK)
}

/// Whether a DMA status word shows the transmit process stopped: its state
/// field is zero.
pub fn tx_process_stopped(status: u32) -> (r: bool)
    ensures
        r == ((status >> TX_DMA_STATE_SHIFT) & TX_DMA_STATE_MASK == 0),
{
    ((status >> TX_DMA_STATE_SHIFT) & TX_DMA_STATE_MASK) == 0
}

/// The EMAC driver.
///
/// * `RX_BUFS` - number of receive buffers
/// * `TX_BUFS` - number of transmit buffers
/// * `BUF_SIZE` - size of each buffer in bytes
pub struct Emac<const RX_BUFS: usize, const TX_BUFS: usize, const BUF_SIZE: usize> {
    /// DMA engine
    dma: DmaEngine<RX_BUFS, TX_BUFS, BUF_SIZE>,
    /// Current configuration
    config: EmacConfig,
    /// Current state
    state: State,
    /// MAC address
    mac_addr: [u8; 6],
    /// Current link speed
    speed: Speed,
    /// Current duplex mode
    duplex: Duplex,
    /// The link partner supports PAUSE frames
    peer_pause_ability: bool,
    /// Backpressure is being applied
    flow_control_active: bool,
    /// Register words programmed so far
    regs: EmacRegisters,
}

impl<const RX_BUFS: usize, const TX_BUFS: usize, const BUF_SIZE: usize> Emac<
    RX_BUFS,
    TX_BUFS,
    BUF_SIZE,
> {
    /// The DMA engine.
    pub closed spec fn dma_spec(&self) -> DmaEngine<RX_BUFS, TX_BUFS, BUF_SIZE> {
        self.dma
    }

    /// The configuration.
    pub closed spec fn config_spec(&self) -> EmacConfig {
        self.config
    }

    /// The state.
    pub closed spec fn state_spec(&self) -> State {
        self.state
    }

    /// The MAC address.
    pub closed spec fn mac_spec(&self) -> [u8; 6] {
        self.mac_addr
    }

    /// The link speed.
    pub closed spec fn speed_spec(&self) -> Speed {
        self.speed
    }

    /// The duplex mode.
    pub closed spec fn duplex_spec(&self) -> Duplex {
        self.duplex
    }

    /// Whether the link partner supports PAUSE.
    pub closed spec fn peer_pause_spec(&self) -> bool {
        self.peer_pause_ability
    }

    /// Whether backpressure is being applied.
    pub closed spec fn fc_active_spec(&self) -> bool {
        self.flow_control_active
    }

    /// The register image.
    pub closed spec fn regs_spec(&self) -> EmacRegisters {
        self.regs
    }

    /// Well-formed driver: its DMA engine is.
    pub closed spec fn wf(&self) -> bool {
        self.dma.wf()
    }

    /// A driver is well formed exactly when its DMA engine is.
    pub proof fn lemma_wf(&self)
        ensures
            self.wf() == self.dma_spec().wf(),
    {
    }

    /// `self` is `prev` with only the register image changed.
    pub closed spec fn only_regs_changed(&self, prev: &Self) -> bool {
        &&& self.dma == prev.dma
        &&& self.config == prev.config
        &&& self.state == prev.state
        &&& self.mac_addr == prev.mac_addr
        &&& self.speed == prev.speed
        &&& self.duplex == prev.duplex
        &&& self.peer_pause_ability == prev.peer_pause_ability
        &&& self.flow_control_active == prev.flow_control_active
    }

    /// `self` is `prev` with only the DMA engine changed.
    pub closed spec fn only_dma_changed(&self, prev: &Self) -> bool {
        &&& self.config == prev.config
        &&& self.state == prev.state
        &&& self.mac_addr == prev.mac_addr
        &&& self.speed == prev.speed
        &&& self.duplex == prev.duplex
        &&& self.peer_pause_ability == prev.peer_pause_ability
        &&& self.flow_control_active == prev.flow_control_active
        &&& self.regs == prev.regs
    }

    /// Create a driver in the `Uninitialized` state, with the default
    /// configuration and every register word zero.
    pub fn new() -> (e: Self)
        ensures
            DmaEngine::<RX_BUFS, TX_BUFS, BUF_SIZE>::valid_dims() ==> e.wf(),
            !e.dma_spec().is_init(),
            e.dma_spec().ctrl_flags() == 0,
            e.dma_spec().rx_cur() == 0,
            e.dma_spec().tx_cur() == 0,
            e.dma_spec().rx_descs().len() == RX_BUFS,
            e.dma_spec().tx_descs().len() == TX_BUFS,
            forall|i: int| 0 <= i < RX_BUFS ==> #[trigger] e.dma_spec().rx_descs()[i] == rx_zeroed(),
            forall|i: int| 0 <= i < TX_BUFS ==> #[trigger] e.dma_spec().tx_descs()[i] == tx_zeroed(),
            forall|i: int|
                0 <= i < RX_BUFS ==> #[trigger] e.dma_spec().rx_buf(i) == Seq::new(BUF_SIZE as nat, |k: int| 0u8),
            forall|i: int|
                0 <= i < TX_BUFS ==> #[trigger] e.dma_spec().tx_buf(i) == Seq::new(BUF_SIZE as nat, |k: int| 0u8),
            tx_owned_stop(e.dma_spec().tx_descs(), e.dma_spec().tx_cur(), 0) == TX_BUFS,
            rx_last_count(
                e.dma_spec().rx_descs(),
                e.dma_spec().rx_cur(),
                rx_owned_stop(e.dma_spec().rx_descs(), e.dma_spec().rx_cur(), 0),
            ) == 0,
            e.state_spec() == State::Uninitialized,
            e.config_spec() == default_config(),
            forall|i: int| 0 <= i < 6 ==> #[trigger] e.mac_spec()[i] == 0,
            e.speed_spec() == Speed::Mbps100,
            e.duplex_spec() == Duplex::Full,
            !e.peer_pause_spec(),
            !e.fc_active_spec(),
            e.regs_spec().mac_config == 0,
            e.regs_spec().frame_filter == 0,
            e.regs_spec().hash_table == 0,
            e.regs_spec().flow_control == 0,
            e.regs_spec().vlan_tag == 0,
            forall|i: int| 0 <= i < 5 ==> #[trigger] e.regs_spec().addr_high[i] == 0,
    {
        Emac {
            dma: DmaEngine::new(),
            config: EmacConfig::new(),
            state: State::Uninitialized,
            mac_addr: [0u8; 6],
            speed: Speed::Mbps100,
            duplex: Duplex::Full,
            peer_pause_ability: false,
            flow_control_active: false,
            regs: EmacRegisters::new(),
        }
    }

    /// The current state.
    pub fn state(&self) -> (r: State)
        ensures
            r == self.state_spec(),
    {
        self.state
    }

    /// The current MAC address.
    pub fn mac_address(&self) -> (r: &[u8; 6])
        ensures
            *r == self.mac_spec(),
    {
        &self.mac_addr
    }

    /// The current link speed.
    pub fn speed(&self) -> (r: Speed)
        ensures
            r == self.speed_spec(),
    {
        self.speed
    }

    /// The current duplex mode.
    pub fn duplex(&self) -> (r: Duplex)
        ensures
            r == self.duplex_spec(),
    {
        self.duplex
    }

    /// The DMA engine: its descriptors and buffers, whose addresses the
    /// hardware layer hands to `complete_init`.
    pub fn dma(&self) -> (r: &DmaEngine<RX_BUFS, TX_BUFS, BUF_SIZE>)
        ensures
            *r == self.dma_spec(),
    {
        &self.dma
    }

    /// The register words programmed so far, for the hardware layer to
    /// write out.
    pub fn registers(&self) -> (r: &EmacRegisters)
        ensures
            *r == self.regs_spec(),
    {
        &self.regs
    }

    /// First step of initialization: refuse a driver that is not
    /// `Uninitialized`, else take `config`. The hardware layer then routes
    /// the clock and pins, enables the clocks and resets the EMAC, and calls
    /// `complete_init`.
    pub fn prepare_init(&mut self, config: EmacConfig) -> (r: Result<()>)
        ensures
            old(self).state_spec() != State::Uninitialized ==> r == Err::<(), Error>(
                Error::Config(ConfigError::AlreadyInitialized),
            ) && *final(self) == *old(self),
            old(self).state_spec() == State::Uninitialized ==> {
                &&& r == Ok::<(), Error>(())
                &&& final(self).config_spec() == config
                &&& final(self).dma_spec() == old(self).dma_spec()
                &&& final(self).state_spec() == State::Uninitialized
                &&& final(self).regs_spec() == old(self).regs_spec()
                &&& final(self).mac_spec() == old(self).mac_spec()
            },
            final(self).wf() == old(self).wf(),
    {
        if self.state != State::Uninitialized {
            return Err(Error::Config(ConfigError::AlreadyInitialized));
        }
        self.config = config;
        Ok(())
    }

    /// Last step of initialization, after the EMAC has been reset: program
    /// the MAC and DMA defaults, chain the descriptor rings (see
    /// [`DmaEngine::init`] for the addresses), set the station address from
    /// the configuration and enter `Initialized`. Refuses a driver that is
    /// not `Uninitialized`.
    pub fn complete_init(
        &mut self,
        rx_ring_addr: u32,
        tx_ring_addr: u32,
        rx_buf_addrs: &[u32],
        tx_buf_addrs: &[u32],
    ) -> (r: Result<()>)
        requires
            old(self).wf(),
            rx_buf_addrs@.len() == RX_BUFS,
            tx_buf_addrs@.len() == TX_BUFS,
            desc_addr(rx_ring_addr, RX_BUFS - 1) <= u32::MAX,
            desc_addr(tx_ring_addr, TX_BUFS - 1) <= u32::MAX,
        ensures
            final(self).wf(),
            old(self).state_spec() != State::Uninitialized ==> r == Err::<(), Error>(
                Error::Config(ConfigError::AlreadyInitialized),
            ) && *final(self) == *old(self),
            old(self).state_spec() == State::Uninitialized ==> {
                let c = old(self).config_spec();
                let g = final(self).regs_spec();
                &&& r == Ok::<(), Error>(())
                &&& final(self).state_spec() == State::Initialized
                &&& final(self).config_spec() == c
                &&& final(self).mac_spec() == c.mac_address
                &&& final(self).dma_spec().is_init()
                &&& final(self).dma_spec().rx_cur() == 0
                &&& final(self).dma_spec().tx_cur() == 0
                &&& final(self).dma_spec().ctrl_flags() == old(self).dma_spec().ctrl_flags()
                &&& forall|i: int|
                    0 <= i < RX_BUFS ==> #[trigger] final(self).dma_spec().rx_buf(i) == old(
                        self,
                    ).dma_spec().rx_buf(i)
                &&& forall|i: int|
                    0 <= i < TX_BUFS ==> #[trigger] final(self).dma_spec().tx_buf(i) == old(
                        self,
                    ).dma_spec().tx_buf(i)
                &&& forall|i: int|
                    0 <= i < RX_BUFS ==> #[trigger] final(self).dma_spec().rx_descs()[i]
                        == crate::dma::rx_chained(
                        old(self).dma_spec().rx_descs()[i],
                        rx_buf_addrs@[i],
                        BUF_SIZE,
                        desc_addr(rx_ring_addr, (i + 1) % (RX_BUFS as int)) as u32,
                    )
                &&& forall|i: int|
                    0 <= i < TX_BUFS ==> #[trigger] final(self).dma_spec().tx_descs()[i]
                        == crate::dma::tx_chained(
                        old(self).dma_spec().tx_descs()[i],
                        tx_buf_addrs@[i],
                        desc_addr(tx_ring_addr, (i + 1) % (TX_BUFS as int)) as u32,
                    )
                &&& g.mac_config == mac_config_default(c.checksum.rx_checksum)
                &&& g.frame_filter == frame_filter_default(c.promiscuous)
                &&& g.hash_table == 0
                &&& g.dma_bus_mode == bus_mode_word(burst_beats(c.dma_burst_len))
                &&& g.dma_operation == DMAOPERATION_TSF | DMAOPERATION_RSF
                &&& g.dma_interrupt_enable == 0
                &&& g.addr_high[0] == GMACADDR_AE | addr_high_bytes(c.mac_address)
                &&& g.addr_low[0] == addr_low_bytes(c.mac_address)
            },
    {
        if self.state != State::Uninitialized {
            return Err(Error::Config(ConfigError::AlreadyInitialized));
        }
        let mut cfg: u32 = GMACCONFIG_PS | GMACCONFIG_FES | GMACCONFIG_DM | GMACCONFIG_ACS
            | GMACCONFIG_JD | GMACCONFIG_WD;
        if self.config.checksum.rx_checksum {
            cfg = cfg | GMACCONFIG_IPC;
        }
        let mut filter: u32 = 0;
        if self.config.promiscuous {
            filter = filter | GMACFF_PR;
        }
        filter = filter | GMACFF_PM;
        proof {
            crate::regs::lemma_word_bits();
        }
        self.regs.mac_config = cfg;
        self.regs.frame_filter = filter;
        self.regs.hash_table = 0;
        let pbl = self.config.dma_burst_len.to_pbl();
        self.regs.dma_bus_mode = DMABUSMODE_FB | DMABUSMODE_AAL | DMABUSMODE_USP | DMABUSMODE_ATDS
            | ((pbl << DMABUSMODE_PBL_SHIFT) & DMABUSMODE_PBL_MASK);
        self.regs.dma_operation = DMAOPERATION_TSF | DMAOPERATION_RSF;
        self.regs.dma_interrupt_enable = 0;
        self.dma.init(rx_ring_addr, tx_ring_addr, rx_buf_addrs, tx_buf_addrs);
        self.mac_addr = self.config.mac_address;
        let hi = encode_addr_high(&self.mac_addr);
        let lo = encode_addr_low(&self.mac_addr);
        self.regs.addr_high[0] = GMACADDR_AE | hi;
        self.regs.addr_low[0] = lo;
        self.state = State::Initialized;
        Ok(())
    }

    /// Start transmission and reception: reset the descriptor rings, enable
    /// the default interrupts, the MAC transmitter and receiver and both DMA
    /// directions, and enter `Running`. Already running: nothing to do.
    /// Refuses an uninitialized driver. The hardware layer then clears
    /// pending interrupts and issues an RX poll demand.
    pub fn start(&mut self) -> (r: Result<()>)
        requires
            old(self).wf(),
        ensures
            final(self).wf(),
            old(self).state_spec() == State::Uninitialized ==> r == Err::<(), Error>(
                Error::Io(IoError::InvalidState),
            ) && *final(self) == *old(self),
            old(self).state_spec() == State::Running ==> r == Ok::<(), Error>(()) && *final(self)
                == *old(self),
            (old(self).state_spec() == State::Initialized || old(self).state_spec()
                == State::Stopped) ==> {
                let g = final(self).regs_spec();
                let p = old(self).regs_spec();
                &&& r == Ok::<(), Error>(())
                &&& final(self).state_spec() == State::Running
                &&& final(self).dma_spec().rx_cur() == 0
                &&& final(self).dma_spec().tx_cur() == 0
                &&& final(self).dma_spec().is_init() == old(self).dma_spec().is_init()
                &&& final(self).dma_spec().ctrl_flags() == old(self).dma_spec().ctrl_flags()
                &&& forall|i: int|
                    0 <= i < RX_BUFS ==> #[trigger] final(self).dma_spec().rx_buf(i) == old(
                        self,
                    ).dma_spec().rx_buf(i)
                &&& forall|i: int|
                    0 <= i < TX_BUFS ==> #[trigger] final(self).dma_spec().tx_buf(i) == old(
                        self,
                    ).dma_spec().tx_buf(i)
                &&& forall|i: int|
                    0 <= i < RX_BUFS ==> #[trigger] final(self).dma_spec().rx_descs()[i]
                        == crate::dma::rx_recycled(old(self).dma_spec().rx_descs()[i])
                &&& forall|i: int|
                    0 <= i < TX_BUFS ==> #[trigger] final(self).dma_spec().tx_descs()[i]
                        == crate::dma::tx_cleared(old(self).dma_spec().tx_descs()[i])
                &&& g.dma_interrupt_enable == DMAIE_DEFAULT
                &&& g.mac_config == p.mac_config | GMACCONFIG_TE | GMACCONFIG_RE
                &&& g.dma_operation == p.dma_operation | DMAOPERATION_ST | DMAOPERATION_SR
                &&& g.frame_filter == p.frame_filter
                &&& g.flow_control == p.flow_control
                &&& final(self).config_spec() == old(self).config_spec()
                &&& final(self).mac_spec() == old(self).mac_spec()
            },
    {
        match self.state {
            State::Initialized | State::Stopped => {},
            State::Running => {
                return Ok(());
            },
            State::Uninitialized => {
                return Err(Error::Io(IoError::InvalidState));
            },
        }
        self.dma.reset();
        self.regs.dma_interrupt_enable = DMAIE_DEFAULT;
        self.regs.mac_config = self.regs.mac_config | GMACCONFIG_TE;
        self.regs.dma_operation = self.regs.dma_operation | DMAOPERATION_ST;
        self.regs.dma_operation = self.regs.dma_operation | DMAOPERATION_SR;
        self.regs.mac_config = self.regs.mac_config | GMACCONFIG_RE;
        self.state = State::Running;
        Ok(())
    }

    /// Stop transmission and reception and enter `Stopped`: both DMA
    /// directions, the MAC transmitter and receiver and every interrupt are
    /// disabled. Refuses a driver that is not running. The hardware layer
    /// stops the TX DMA and waits for it to go idle, and flushes the TX FIFO,
    /// before calling this; it reports a timeout there itself.
    pub fn stop(&mut self) -> (r: Result<()>)
        ensures
            old(self).state_spec() != State::Running ==> r == Err::<(), Error>(
                Error::Io(IoError::InvalidState),
            ) && *final(self) == *old(self),
            old(self).state_spec() == State::Running ==> {
                let g = final(self).regs_spec();
                let p = old(self).regs_spec();
                &&& r == Ok::<(), Error>(())
                &&& final(self).state_spec() == State::Stopped
                &&& final(self).dma_spec() == old(self).dma_spec()
                &&& g.dma_interrupt_enable == 0
                &&& g.mac_config == p.mac_config & !(GMACCONFIG_TE | GMACCONFIG_RE)
                &&& g.dma_operation == p.dma_operation & !(DMAOPERATION_ST | DMAOPERATION_SR)
                &&& g.frame_filter == p.frame_filter
                &&& g.flow_control == p.flow_control
                &&& final(self).config_spec() == old(self).config_spec()
                &&& final(self).mac_spec() == old(self).mac_spec()
            },
    {
        if self.state != State::Running {
            return Err(Error::Io(IoError::InvalidState));
        }
        self.regs.dma_operation = self.regs.dma_operation & !DMAOPERATION_ST;
        self.regs.dma_operation = self.regs.dma_operation & !DMAOPERATION_SR;
        self.regs.mac_config = self.regs.mac_config & !GMACCONFIG_TE;
        self.regs.mac_config = self.regs.mac_config & !GMACCONFIG_RE;
        self.regs.dma_interrupt_enable = 0;
        proof {
            let m = old(self).regs.mac_config;
            let o = old(self).regs.dma_operation;
            crate::regs::lemma_word_bits();
            assert((m & !0x8u32) & !0x4u32 == m & !(0x8u32 | 0x4u32));
            assert((o & !0x2000u32) & !0x2u32 == o & !(0x2000u32 | 0x2u32));
        }
        self.state = State::Stopped;
        Ok(())
    }

    /// Transmit a frame; refused unless running. See
    /// [`DmaEngine::transmit`]. The hardware layer then issues a TX poll
    /// demand.
    pub fn transmit(&mut self, data: &[u8]) -> (r: Result<usize>)
        requires
            old(self).wf(),
        ensures
            final(self).wf(),
            old(self).state_spec() != State::Running ==> r == Err::<usize, Error>(
                Error::Io(IoError::InvalidState),
            ) && *final(self) == *old(self),
            old(self).state_spec() == State::Running ==> final(self).only_dma_changed(old(self))
                && final(self).dma_spec().transmit_result(&old(self).dma_spec(), data@, r),
    {
        if self.state != State::Running {
            return Err(Error::Io(IoError::InvalidState));
        }
        self.dma.transmit(data)
    }

    /// Whether the descriptor at the RX cursor holds the end of a frame.
    pub fn rx_available(&self) -> (r: bool)
        requires
            self.wf(),
        ensures
            r == (!rx_owned(self.dma_spec().rx_descs()[self.dma_spec().rx_cur()].rdes0) && rx_last(
                self.dma_spec().rx_descs()[self.dma_spec().rx_cur()].rdes0,
            )),
    {
        self.dma.rx_available()
    }

    /// Length of the next frame without consuming it.
    pub fn peek_rx_length(&self) -> (r: Option<usize>)
        requires
            self.wf(),
        ensures
            r matches Some(l) ==> rx_peek(self.dma_spec().rx_descs(), self.dma_spec().rx_cur())
                == Some(l as nat),
            r is None ==> rx_peek(self.dma_spec().rx_descs(), self.dma_spec().rx_cur()) is None,
    {
        self.dma.peek_frame_length()
    }

    /// Whether `receive` into a buffer of `cap` bytes stays within the RX
    /// buffers (see [`DmaEngine::rx_frame_in_buffers`]); `receive` asks it.
    pub fn rx_frame_fits(&self, cap: usize) -> (r: bool)
        requires
            self.wf(),
        ensures
            r == crate::dma::rx_copy_fits(
                self.dma_spec().rx_descs(),
                self.dma_spec().rx_cur(),
                cap as int,
                BUF_SIZE as int,
            ),
    {
        self.dma.rx_frame_in_buffers(cap)
    }

    /// Receive a frame into `buffer`; refused unless running. See
    /// [`DmaEngine::receive`]. The hardware layer then issues an RX poll
    /// demand.
    pub fn receive(&mut self, buffer: &mut [u8]) -> (r: Result<usize>)
        requires
            old(self).wf(),
            old(self).state_spec() == State::Running ==> crate::dma::rx_copy_fits(
                old(self).dma_spec().rx_descs(),
                old(self).dma_spec().rx_cur(),
                old(buffer)@.len() as int,
                BUF_SIZE as int,
            ),
        ensures
            final(self).wf(),
            old(self).state_spec() != State::Running ==> r == Err::<usize, Error>(
                Error::Io(IoError::InvalidState),
            ) && *final(self) == *old(self) && final(buffer)@ == old(buffer)@,
            old(self).state_spec() == State::Running ==> final(self).only_dma_changed(old(self))
                && final(self).dma_spec().receive_result(
                &old(self).dma_spec(),
                old(buffer)@,
                final(buffer)@,
                r,
            ),
    {
        if self.state != State::Running {
            return Err(Error::Io(IoError::InvalidState));
        }
        self.dma.receive(buffer)
    }

    /// Whether a TX descriptor is free at the cursor.
    pub fn tx_ready(&self) -> (r: bool)
        requires
            self.wf(),
        ensures
            r == (tx_owned_stop(self.dma_spec().tx_descs(), self.dma_spec().tx_cur(), 0) > 0),
    {
        self.dma.tx_available() > 0
    }

    /// Whether a frame of `len` bytes can be transmitted now.
    pub fn can_transmit(&self, len: usize) -> (r: bool)
        requires
            self.wf(),
        ensures
            r == (len != 0 && len <= TX_BUFS * BUF_SIZE && tx_owned_stop(
                self.dma_spec().tx_descs(),
                self.dma_spec().tx_cur(),
                0,
            ) >= crate::dma::desc_count(len as int, BUF_SIZE as int)),
    {
        self.dma.can_transmit(len)
    }

    /// Set the MAC address, station address slot included.
    pub fn set_mac_address(&mut self, addr: &[u8; 6])
        ensures
            final(self).mac_spec() == *addr,
            final(self).regs_spec().addr_high@ == old(self).regs_spec().addr_high@.update(
                0,
                GMACADDR_AE | addr_high_bytes(*addr),
            ),
            final(self).regs_spec().addr_low@ == old(self).regs_spec().addr_low@.update(
                0,
                addr_low_bytes(*addr),
            ),
            final(self).dma_spec() == old(self).dma_spec(),
            final(self).state_spec() == old(self).state_spec(),
    {
        self.mac_addr = *addr;
        let hi = encode_addr_high(addr);
        let lo = encode_addr_low(addr);
        self.regs.addr_high[0] = GMACADDR_AE | hi;
        self.regs.addr_low[0] = lo;
    }

    /// Set the link speed (from the PHY).
    pub fn set_speed(&mut self, speed: Speed)
        ensures
            final(self).speed_spec() == speed,
            final(self).regs_spec() == (EmacRegisters {
                mac_config: with_bits(old(self).regs_spec().mac_config, GMACCONFIG_FES, speed == Speed::Mbps100),
                ..old(self).regs_spec()
            }),
            final(self).duplex_spec() == old(self).duplex_spec(),
            final(self).dma_spec() == old(self).dma_spec(),
            final(self).state_spec() == old(self).state_spec(),
            final(self).config_spec() == old(self).config_spec(),
            final(self).mac_spec() == old(self).mac_spec(),
            final(self).peer_pause_spec() == old(self).peer_pause_spec(),
            final(self).fc_active_spec() == old(self).fc_active_spec(),
    {
        self.speed = speed;
        let fast = match speed {
            Speed::Mbps100 => true,
            Speed::Mbps10 => false,
        };
        self.regs.mac_config = set_bits(self.regs.mac_config, GMACCONFIG_FES, fast);
    }

    /// Set the duplex mode (from the PHY).
    pub fn set_duplex(&mut self, duplex: Duplex)
        ensures
            final(self).duplex_spec() == duplex,
            final(self).regs_spec() == (EmacRegisters {
                mac_config: with_bits(old(self).regs_spec().mac_config, GMACCONFIG_DM, duplex == Duplex::Full),
                ..old(self).regs_spec()
            }),
            final(self).speed_spec() == old(self).speed_spec(),
            final(self).dma_spec() == old(self).dma_spec(),
            final(self).state_spec() == old(self).state_spec(),
            final(self).config_spec() == old(self).config_spec(),
            final(self).mac_spec() == old(self).mac_spec(),
            final(self).peer_pause_spec() == old(self).peer_pause_spec(),
            final(self).fc_active_spec() == old(self).fc_active_spec(),
    {
        self.duplex = duplex;
        let full = match duplex {
            Duplex::Full => true,
            Duplex::Half => false,
        };
        self.regs.mac_config = set_bits(self.regs.mac_config, GMACCONFIG_DM, full);
    }

    /// `self` is `prev` with the link set to `speed` and `duplex`: the
    /// speed and duplex bits of the MAC configuration follow them, and
    /// nothing else changes.
    pub open spec fn link_set(&self, prev: &Self, speed: Speed, duplex: Duplex) -> bool {
        &&& self.speed_spec() == speed
        &&& self.duplex_spec() == duplex
        &&& self.regs_spec() == (EmacRegisters {
            mac_config: with_bits(
                with_bits(prev.regs_spec().mac_config, GMACCONFIG_FES, speed == Speed::Mbps100),
                GMACCONFIG_DM,
                duplex == Duplex::Full,
            ),
            ..prev.regs_spec()
        })
        &&& self.dma_spec() == prev.dma_spec()
        &&& self.state_spec() == prev.state_spec()
        &&& self.config_spec() == prev.config_spec()
        &&& self.mac_spec() == prev.mac_spec()
        &&& self.peer_pause_spec() == prev.peer_pause_spec()
        &&& self.fc_active_spec() == prev.fc_active_spec()
    }

    /// Set speed and duplex.
    pub fn update_link(&mut self, speed: Speed, duplex: Duplex)
        ensures
            final(self).link_set(old(self), speed, duplex),
    {
        self.set_speed(speed);
        self.set_duplex(duplex);
    }

    /// Enable or disable promiscuous mode.
    pub fn set_promiscuous(&mut self, enable: bool)
        ensures
            final(self).only_regs_changed(old(self)),
            final(self).regs_spec() == (EmacRegisters {
                frame_filter: with_bits(old(self).regs_spec().frame_filter, GMACFF_PR, enable),
                ..old(self).regs_spec()
            }),
    {
        self.regs.frame_filter = set_bits(self.regs.frame_filter, GMACFF_PR, enable);
    }

    /// Enable or disable passing all multicast frames.
    pub fn set_pass_all_multicast(&mut self, enable: bool)
        ensures
            final(self).only_regs_changed(old(self)),
            final(self).regs_spec() == (EmacRegisters {
                frame_filter: with_bits(old(self).regs_spec().frame_filter, GMACFF_PM, enable),
                ..old(self).regs_spec()
            }),
    {
        self.regs.frame_filter = set_bits(self.regs.frame_filter, GMACFF_PM, enable);
    }

    /// Accept or reject broadcast frames.
    pub fn set_broadcast_enabled(&mut self, enable: bool)
        ensures
            final(self).only_regs_changed(old(self)),
            final(self).regs_spec() == (EmacRegisters {
                frame_filter: with_bits(old(self).regs_spec().frame_filter, GMACFF_DBF, !enable),
                ..old(self).regs_spec()
            }),
    {
        self.regs.frame_filter = set_bits(self.regs.frame_filter, GMACFF_DBF, !enable);
    }

    /// Enable or disable the TX complete interrupt.
    pub fn enable_tx_interrupt(&mut self, enable: bool)
        ensures
            final(self).only_regs_changed(old(self)),
            final(self).regs_spec() == (EmacRegisters {
                dma_interrupt_enable: with_bits(old(self).regs_spec().dma_interrupt_enable, DMAIE_TIE, enable),
                ..old(self).regs_spec()
            }),
    {
        self.regs.dma_interrupt_enable = set_bits(self.regs.dma_interrupt_enable, DMAIE_TIE, enable);
    }

    /// Enable or disable the RX complete interrupt.
    pub fn enable_rx_interrupt(&mut self, enable: bool)
        ensures
            final(self).only_regs_changed(old(self)),
            final(self).regs_spec() == (EmacRegisters {
                dma_interrupt_enable: with_bits(old(self).regs_spec().dma_interrupt_enable, DMAIE_RIE, enable),
                ..old(self).regs_spec()
            }),
    {
        self.regs.dma_interrupt_enable = set_bits(self.regs.dma_interrupt_enable, DMAIE_RIE, enable);
    }

    /// The number of TX descriptors free from the cursor on.
    pub fn tx_descriptors_available(&self) -> (r: usize)
        requires
            self.wf(),
        ensures
            r == tx_owned_stop(self.dma_spec().tx_descs(), self.dma_spec().tx_cur(), 0),
    {
        self.dma.tx_available()
    }

    /// The number of complete frames waiting in the RX ring.
    pub fn rx_frames_waiting(&self) -> (r: usize)
        requires
            self.wf(),
        ensures
            r == rx_last_count(
                self.dma_spec().rx_descs(),
                self.dma_spec().rx_cur(),
                rx_owned_stop(self.dma_spec().rx_descs(), self.dma_spec().rx_cur(), 0),
            ),
    {
        self.dma.rx_frame_count()
    }

    /// Memory taken by a driver: its DMA memory and its own state.
    pub fn memory_usage() -> (r: usize)
        requires
            RX_BUFS * 32 + TX_BUFS * 32 + RX_BUFS * BUF_SIZE + TX_BUFS * BUF_SIZE
                + vstd::layout::size_of::<EmacConfig>() + vstd::layout::size_of::<State>() + 6
                + vstd::layout::size_of::<Speed>() + vstd::layout::size_of::<Duplex>()
                <= usize::MAX,
        ensures
            r == RX_BUFS * 32 + TX_BUFS * 32 + RX_BUFS * BUF_SIZE + TX_BUFS * BUF_SIZE
                + vstd::layout::size_of::<EmacConfig>() + vstd::layout::size_of::<State>() + 6
                + vstd::layout::size_of::<Speed>() + vstd::layout::size_of::<Duplex>(),
    {
        let d = DmaEngine::<RX_BUFS, TX_BUFS, BUF_SIZE>::memory_usage();
        let c = core::mem::size_of::<EmacConfig>();
        let s = core::mem::size_of::<State>();
        let sp = core::mem::size_of::<Speed>();
        let du = core::mem::size_of::<Duplex>();
        d + c + s + 6 + sp + du
    }
}

/// `after` is `before` with address slot `s` set to `high` and `low`.
pub open spec fn slot_set(after: EmacRegisters, before: EmacRegisters, s: int, high: u32, low: u32) -> bool {
    &&& after.addr_high@ == before.addr_high@.update(s, high)
    &&& after.addr_low@ == before.addr_low@.update(s, low)
    &&& after.mac_config == before.mac_config
    &&& after.frame_filter == before.frame_filter
    &&& after.hash_table == before.hash_table
    &&& after.vlan_tag == before.vlan_tag
    &&& after.flow_control == before.flow_control
    &&& after.dma_bus_mode == before.dma_bus_mode
    &&& after.dma_operation == before.dma_operation
    &&& after.dma_interrupt_enable == before.dma_interrupt_enable
}

/// No filter slot from `s` to 4 holds `a` exactly when the search from `s`
/// finds none.
proof fn lemma_first_holding_none(r: EmacRegisters, a: [u8; 6], s: int)
    requires
        1 <= s <= 5,
    ensures
        (first_holding(r, a, s) == 5) == (forall|t: int| s <= t < 5 ==> !#[trigger] slot_holds(r, t, a)),
        s <= first_holding(r, a, s) <= 5,
        first_holding(r, a, s) < 5 ==> slot_holds(r, first_holding(r, a, s), a),
    decreases 5 - s,
{
    if s < 5 {
        lemma_first_holding_none(r, a, s + 1);
    }
}

/// The search for `a` from `s` on finds `h` when `h` holds it and no slot
/// between `s` and `h` does.
proof fn lemma_first_holding_at(r: EmacRegisters, a: [u8; 6], s: int, h: int)
    requires
        1 <= s <= h < 5,
        slot_holds(r, h, a),
        forall|t: int| s <= t < h ==> !#[trigger] slot_holds(r, t, a),
    ensures
        first_holding(r, a, s) == h,
    decreases h - s,
{
    if s < h {
        lemma_first_holding_at(r, a, s + 1, h);
    }
}

/// The first disabled slot from `s` on is disabled, and every slot before
/// it is enabled.
proof fn lemma_first_free(r: EmacRegisters, s: int)
    requires
        1 <= s <= 5,
    ensures
        s <= first_free(r, s) <= 5,
        first_free(r, s) < 5 ==> !slot_enabled(r, first_free(r, s)),
        forall|t: int| s <= t < first_free(r, s) ==> #[trigger] slot_enabled(r, t),
    decreases 5 - s,
{
    if s < 5 {
        lemma_first_free(r, s + 1);
    }
}

/// Changing one slot from disabled to enabled, or back, changes the count
/// of enabled slots from `s` on by one; other slots are unchanged.
proof fn lemma_enabled_from_update(before: EmacRegisters, after: EmacRegisters, k: int, s: int)
    requires
        1 <= s <= 5,
        0 <= k < 5,
        forall|t: int| 0 <= t < 5 && t != k ==> after.addr_high[t] == before.addr_high[t],
    ensures
        k < s ==> enabled_from(after, s) == enabled_from(before, s),
        s <= k && slot_enabled(after, k) && !slot_enabled(before, k) ==> enabled_from(after, s)
            == enabled_from(before, s) + 1,
        s <= k && !slot_enabled(after, k) && slot_enabled(before, k) ==> enabled_from(after, s)
            + 1 == enabled_from(before, s),
    decreases 5 - s,
{
    if s < 5 {
        lemma_enabled_from_update(before, after, k, s + 1);
    }
}

/// A perfect-match filter add of `a` that succeeds (no slot held `a`, and
/// the first free slot `s` takes it) leaves `s` the one slot holding `a`,
/// so a search finds it there and a second add of `a` is refused, and one
/// more slot is in use.
pub proof fn lemma_add_filter_then_find(
    before: EmacRegisters,
    after: EmacRegisters,
    a: [u8; 6],
    source: bool,
    mask: u8,
)
    requires
        first_holding(before, a, 1) == 5,
        first_free(before, 1) < 5,
        slot_set(
            after,
            before,
            first_free(before, 1),
            filter_high_word(a, source, mask),
            addr_low_bytes(a),
        ),
    ensures
        first_holding(after, a, 1) == first_free(before, 1),
        forall|t: int| 1 <= t < 5 && t != first_free(before, 1) ==> !#[trigger] slot_holds(after, t, a),
        enabled_from(after, 1) == enabled_from(before, 1) + 1,
{
    let s = first_free(before, 1);
    lemma_first_holding_none(before, a, 1);
    lemma_first_free(before, 1);
    lemma_filter_high_word(a, source, mask);
    assert(slot_holds(after, s, a));
    assert forall|t: int| 1 <= t < 5 && t != s implies !#[trigger] slot_holds(after, t, a) by {
        assert(after.addr_high[t] == before.addr_high[t]);
        assert(after.addr_low[t] == before.addr_low[t]);
        assert(!slot_holds(before, t, a));
    }
    lemma_first_holding_at(after, a, 1, s);
    assert forall|t: int| 0 <= t < 5 && t != s implies after.addr_high[t] == before.addr_high[t] by {}
    lemma_enabled_from_update(before, after, s, 1);
}

/// Removing `a` right after adding it to the perfect-match filter leaves no
/// slot holding `a` and as many slots in use as before the add.
pub proof fn lemma_add_then_remove_filter(
    before: EmacRegisters,
    added: EmacRegisters,
    after: EmacRegisters,
    a: [u8; 6],
    source: bool,
    mask: u8,
)
    requires
        first_holding(before, a, 1) == 5,
        first_free(before, 1) < 5,
        slot_set(
            added,
            before,
            first_free(before, 1),
            filter_high_word(a, source, mask),
            addr_low_bytes(a),
        ),
        slot_set(after, added, first_holding(added, a, 1), 0, 0),
    ensures
        first_holding(after, a, 1) == 5,
        enabled_from(after, 1) == enabled_from(before, 1),
{
    let s = first_free(before, 1);
    lemma_add_filter_then_find(before, added, a, source, mask);
    lemma_filter_high_word(a, source, mask);
    lemma_first_free(before, 1);
    assert(after.addr_high@[s] == 0);
    assert(!slot_enabled(after, s)) by {
        assert(after.addr_high[s] == 0);
        crate::regs::lemma_word_bits();
    }
    assert forall|t: int| 1 <= t < 5 implies !#[trigger] slot_holds(after, t, a) by {
        if t != s {
            assert(after.addr_high[t] == added.addr_high[t]);
            assert(after.addr_low[t] == added.addr_low[t]);
            assert(!slot_holds(added, t, a));
        }
    }
    lemma_first_holding_none(after, a, 1);
    assert forall|t: int| 0 <= t < 5 && t != s implies after.addr_high[t] == added.addr_high[t] by {}
    lemma_enabled_from_update(added, after, s, 1);
}

impl<const RX_BUFS: usize, const TX_BUFS: usize, const BUF_SIZE: usize> Emac<
    RX_BUFS,
    TX_BUFS,
    BUF_SIZE,
> {
    /// The first filter slot holding `addr`, if any.
    fn find_mac_filter(&self, addr: &[u8; 6]) -> (r: Option<usize>)
        ensures
            r matches Some(s) ==> s == first_holding(self.regs_spec(), *addr, 1) && 1 <= s <= 4,
            r is None ==> first_holding(self.regs_spec(), *addr, 1) == 5,
    {
        let hi = encode_addr_high(addr);
        let lo = encode_addr_low(addr);
        let mut s: usize = 1;
        while s < 5
            invariant
                1 <= s <= 5,
                hi == addr_high_bytes(*addr),
                lo == addr_low_bytes(*addr),
                first_holding(self.regs_spec(), *addr, 1) == first_holding(self.regs_spec(), *addr, s as int),
            decreases 5 - s,
        {
            let h = self.regs.addr_high[s];
            if (h & GMACADDR_AE) != 0 && (h & 0xFFFF) == hi && self.regs.addr_low[s] == lo {
                return Some(s);
            }
            s = s + 1;
        }
        None
    }

    /// The first disabled filter slot, if any.
    fn find_free_slot(&self) -> (r: Option<usize>)
        ensures
            r matches Some(s) ==> s == first_free(self.regs_spec(), 1) && 1 <= s <= 4,
            r is None ==> first_free(self.regs_spec(), 1) == 5,
    {
        let mut s: usize = 1;
        while s < 5
            invariant
                1 <= s <= 5,
                first_free(self.regs_spec(), 1) == first_free(self.regs_spec(), s as int),
            decreases 5 - s,
        {
            if (self.regs.addr_high[s] & GMACADDR_AE) == 0 {
                return Some(s);
            }
            s = s + 1;
        }
        None
    }

    /// Put `addr` into the first free perfect-match filter slot, comparing
    /// the source address if `source`, ignoring the bytes in `mask`.
    fn add_filter(&mut self, addr: &[u8; 6], source: bool, mask: u8) -> (r: Result<usize>)
        ensures
            final(self).only_regs_changed(old(self)),
            first_holding(old(self).regs_spec(), *addr, 1) < 5 ==> r == Err::<usize, Error>(
                Error::Config(ConfigError::AlreadyInitialized),
            ) && final(self).regs_spec() == old(self).regs_spec(),
            first_holding(old(self).regs_spec(), *addr, 1) == 5 && first_free(old(self).regs_spec(), 1)
                == 5 ==> r == Err::<usize, Error>(Error::Dma(DmaError::NoDescriptorsAvailable))
                && final(self).regs_spec() == old(self).regs_spec(),
            first_holding(old(self).regs_spec(), *addr, 1) == 5 && first_free(old(self).regs_spec(), 1)
                < 5 ==> {
                let s = first_free(old(self).regs_spec(), 1);
                &&& r == Ok::<usize, Error>(s as usize)
                &&& slot_set(
                    final(self).regs_spec(),
                    old(self).regs_spec(),
                    s,
                    filter_high_word(*addr, source, mask),
                    addr_low_bytes(*addr),
                )
            },
    {
        if self.find_mac_filter(addr).is_some() {
            return Err(Error::Config(ConfigError::AlreadyInitialized));
        }
        let slot = match self.find_free_slot() {
            Some(s) => s,
            None => {
                return Err(Error::Dma(DmaError::NoDescriptorsAvailable));
            },
        };
        let hi = filter_high(addr, source, mask);
        let lo = encode_addr_low(addr);
        self.regs.addr_high[slot] = hi;
        self.regs.addr_low[slot] = lo;
        proof {
            assert(self.regs.addr_high@ =~= old(self).regs.addr_high@.update(slot as int, hi));
            assert(self.regs.addr_low@ =~= old(self).regs.addr_low@.update(slot as int, lo));
        }
        Ok(slot)
    }

    /// Add a destination address to the perfect-match filter: the slot used.
    ///
    /// Fails with `AlreadyInitialized` if a slot holds the address already
    /// and with `NoDescriptorsAvailable` if all four slots are taken.
    pub fn add_mac_filter(&mut self, addr: &[u8; 6]) -> (r: Result<usize>)
        ensures
            final(self).only_regs_changed(old(self)),
            first_holding(old(self).regs_spec(), *addr, 1) < 5 ==> r == Err::<usize, Error>(
                Error::Config(ConfigError::AlreadyInitialized),
            ) && final(self).regs_spec() == old(self).regs_spec(),
            first_holding(old(self).regs_spec(), *addr, 1) == 5 && first_free(old(self).regs_spec(), 1)
                == 5 ==> r == Err::<usize, Error>(Error::Dma(DmaError::NoDescriptorsAvailable))
                && final(self).regs_spec() == old(self).regs_spec(),
            first_holding(old(self).regs_spec(), *addr, 1) == 5 && first_free(old(self).regs_spec(), 1)
                < 5 ==> {
                let s = first_free(old(self).regs_spec(), 1);
                &&& r == Ok::<usize, Error>(s as usize)
                &&& slot_set(
                    final(self).regs_spec(),
                    old(self).regs_spec(),
                    s,
                    filter_high_word(*addr, false, 0),
                    addr_low_bytes(*addr),
                )
            },
    {
        self.add_filter(addr, false, 0)
    }

    /// Add a filter entry, destination or source, with its byte mask: the
    /// slot used. Fails as `add_mac_filter` does.
    pub fn add_mac_filter_config(&mut self, filter: &MacAddressFilter) -> (r: Result<usize>)
        ensures
            final(self).only_regs_changed(old(self)),
            first_holding(old(self).regs_spec(), filter.address, 1) < 5 ==> r == Err::<
                usize,
                Error,
            >(Error::Config(ConfigError::AlreadyInitialized)) && final(self).regs_spec() == old(
                self).regs_spec(),
            first_holding(old(self).regs_spec(), filter.address, 1) == 5 && first_free(
                old(self).regs_spec(),
                1,
            ) == 5 ==> r == Err::<usize, Error>(Error::Dma(DmaError::NoDescriptorsAvailable))
                && final(self).regs_spec() == old(self).regs_spec(),
            first_holding(old(self).regs_spec(), filter.address, 1) == 5 && first_free(
                old(self).regs_spec(),
                1,
            ) < 5 ==> {
                let s = first_free(old(self).regs_spec(), 1);
                &&& r == Ok::<usize, Error>(s as usize)
                &&& slot_set(
                    final(self).regs_spec(),
                    old(self).regs_spec(),
                    s,
                    filter_high_word(
                        filter.address,
                        filter.filter_type == MacFilterType::Source,
                        filter.byte_mask,
                    ),
                    addr_low_bytes(filter.address),
                )
            },
    {
        let is_source = match filter.filter_type {
            MacFilterType::Source => true,
            MacFilterType::Destination => false,
        };
        self.add_filter(&filter.address, is_source, filter.byte_mask)
    }

    /// Remove `addr` from the perfect-match filter; `InvalidLength` if no
    /// slot holds it.
    pub fn remove_mac_filter(&mut self, addr: &[u8; 6]) -> (r: Result<()>)
        ensures
            final(self).only_regs_changed(old(self)),
            first_holding(old(self).regs_spec(), *addr, 1) == 5 ==> r == Err::<(), Error>(
                Error::Dma(DmaError::InvalidLength),
            ) && final(self).regs_spec() == old(self).regs_spec(),
            first_holding(old(self).regs_spec(), *addr, 1) < 5 ==> r == Ok::<(), Error>(())
                && slot_set(
                final(self).regs_spec(),
                old(self).regs_spec(),
                first_holding(old(self).regs_spec(), *addr, 1),
                0,
                0,
            ),
    {
        let slot = match self.find_mac_filter(addr) {
            Some(s) => s,
            None => {
                return Err(Error::Dma(DmaError::InvalidLength));
            },
        };
        self.regs.addr_high[slot] = 0;
        self.regs.addr_low[slot] = 0;
        proof {
            assert(self.regs.addr_high@ =~= old(self).regs.addr_high@.update(slot as int, 0));
            assert(self.regs.addr_low@ =~= old(self).regs.addr_low@.update(slot as int, 0));
        }
        Ok(())
    }

    /// Disable every perfect-match filter slot; the station address stays.
    pub fn clear_mac_filters(&mut self)
        ensures
            final(self).only_regs_changed(old(self)),
            final(self).regs_spec().addr_high[0] == old(self).regs_spec().addr_high[0],
            final(self).regs_spec().addr_low[0] == old(self).regs_spec().addr_low[0],
            forall|s: int| 1 <= s < 5 ==> #[trigger] final(self).regs_spec().addr_high[s] == 0
                && final(self).regs_spec().addr_low[s] == 0,
            final(self).regs_spec().frame_filter == old(self).regs_spec().frame_filter,
            final(self).regs_spec().hash_table == old(self).regs_spec().hash_table,
    {
        self.regs.addr_high[1] = 0;
        self.regs.addr_low[1] = 0;
        self.regs.addr_high[2] = 0;
        self.regs.addr_low[2] = 0;
        self.regs.addr_high[3] = 0;
        self.regs.addr_low[3] = 0;
        self.regs.addr_high[4] = 0;
        self.regs.addr_low[4] = 0;
    }

    /// The number of enabled perfect-match filter slots.
    pub fn mac_filter_count(&self) -> (r: usize)
        ensures
            r == enabled_from(self.regs_spec(), 1),
    {
        let mut count: usize = 0;
        let mut s: usize = 5;
        while s > 1
            invariant
                1 <= s <= 5,
                count == enabled_from(self.regs_spec(), s as int),
                count <= 5 - s,
            decreases s,
        {
            s = s - 1;
            if (self.regs.addr_high[s] & GMACADDR_AE) != 0 {
                count = count + 1;
            }
        }
        count
    }

    /// Whether a perfect-match filter slot is free.
    pub fn has_free_mac_filter_slot(&self) -> (r: bool)
        ensures
            r == (first_free(self.regs_spec(), 1) < 5),
    {
        self.find_free_slot().is_some()
    }

    /// Add `addr` to the multicast hash filter: set its bucket's bit and
    /// return the bucket. Other addresses in the bucket pass too.
    pub fn add_hash_filter(&mut self, addr: &[u8; 6]) -> (r: u8)
        ensures
            r == hash_bucket(*addr),
            final(self).only_regs_changed(old(self)),
            final(self).regs_spec() == (EmacRegisters {
                hash_table: old(self).regs_spec().hash_table | bucket_bit(*addr),
                ..old(self).regs_spec()
            }),
    {
        let index = hash_index(addr);
        self.regs.hash_table = self.regs.hash_table | (1u64 << index);
        index
    }

    /// Remove `addr` from the multicast hash filter: clear its bucket's bit
    /// and return the bucket. Every other address in the bucket goes too.
    pub fn remove_hash_filter(&mut self, addr: &[u8; 6]) -> (r: u8)
        ensures
            r == hash_bucket(*addr),
            final(self).only_regs_changed(old(self)),
            final(self).regs_spec() == (EmacRegisters {
                hash_table: old(self).regs_spec().hash_table & !bucket_bit(*addr),
                ..old(self).regs_spec()
            }),
    {
        let index = hash_index(addr);
        self.regs.hash_table = self.regs.hash_table & !(1u64 << index);
        index
    }

    /// Whether `addr` passes the multicast hash filter: its bucket's bit is
    /// set.
    pub fn check_hash_filter(&self, addr: &[u8; 6]) -> (r: bool)
        ensures
            r == (self.regs_spec().hash_table & bucket_bit(*addr) != 0),
    {
        let index = hash_index(addr);
        (self.regs.hash_table & (1u64 << index)) != 0
    }

    /// Clear the whole hash table.
    pub fn clear_hash_table(&mut self)
        ensures
            final(self).only_regs_changed(old(self)),
            final(self).regs_spec() == (EmacRegisters { hash_table: 0, ..old(self).regs_spec() }),
    {
        self.regs.hash_table = 0;
    }

    /// The hash table.
    pub fn hash_table(&self) -> (r: u64)
        ensures
            r == self.regs_spec().hash_table,
    {
        self.regs.hash_table
    }

    /// Replace the hash table.
    pub fn set_hash_table(&mut self, value: u64)
        ensures
            final(self).only_regs_changed(old(self)),
            final(self).regs_spec() == (EmacRegisters { hash_table: value, ..old(self).regs_spec() }),
    {
        self.regs.hash_table = value;
    }

    /// Enable or disable hash filtering of multicast frames; enabling it
    /// stops passing all multicast.
    pub fn enable_hash_multicast(&mut self, enable: bool)
        ensures
            final(self).only_regs_changed(old(self)),
            final(self).regs_spec() == (EmacRegisters {
                frame_filter: if enable {
                    with_bits(with_bits(old(self).regs_spec().frame_filter, GMACFF_HMC, true), GMACFF_PM, false)
                } else {
                    with_bits(old(self).regs_spec().frame_filter, GMACFF_HMC, false)
                },
                ..old(self).regs_spec()
            }),
    {
        self.regs.frame_filter = set_bits(self.regs.frame_filter, GMACFF_HMC, enable);
        if enable {
            self.regs.frame_filter = set_bits(self.regs.frame_filter, GMACFF_PM, false);
        }
    }

    /// Enable or disable hash filtering of unicast frames.
    pub fn enable_hash_unicast(&mut self, enable: bool)
        ensures
            final(self).only_regs_changed(old(self)),
            final(self).regs_spec() == (EmacRegisters {
                frame_filter: with_bits(old(self).regs_spec().frame_filter, GMACFF_HUC, enable),
                ..old(self).regs_spec()
            }),
    {
        self.regs.frame_filter = set_bits(self.regs.frame_filter, GMACFF_HUC, enable);
    }

    /// The hash bucket of `addr`.
    pub fn compute_hash_index(addr: &[u8; 6]) -> (r: u8)
        ensures
            r == hash_bucket(*addr),
            r < 64,
    {
        hash_index(addr)
    }

    /// Receive only frames tagged with VLAN `vid` (12-bit comparison).
    pub fn set_vlan_filter(&mut self, vid: u16)
        ensures
            final(self).only_regs_changed(old(self)),
            final(self).regs_spec() == (EmacRegisters {
                vlan_tag: vlan_word(vid, true, false, false),
                frame_filter: with_bits(old(self).regs_spec().frame_filter, GMACFF_VTFE, true),
                ..old(self).regs_spec()
            }),
    {
        self.configure_vlan_filter(vid, true, false, false);
    }

    /// Filter on VLAN `vid`: 12-bit comparison if `vid_only`, inverse match
    /// if `inverse`, S-VLAN if `svlan`.
    pub fn configure_vlan_filter(&mut self, vid: u16, vid_only: bool, inverse: bool, svlan: bool)
        ensures
            final(self).only_regs_changed(old(self)),
            final(self).regs_spec() == (EmacRegisters {
                vlan_tag: vlan_word(vid, vid_only, inverse, svlan),
                frame_filter: with_bits(old(self).regs_spec().frame_filter, GMACFF_VTFE, true),
                ..old(self).regs_spec()
            }),
    {
        let etv = if vid_only {
            GMACVLAN_ETV
        } else {
            0
        };
        let vtim = if inverse {
            GMACVLAN_VTIM
        } else {
            0
        };
        let esvl = if svlan {
            GMACVLAN_ESVL
        } else {
            0
        };
        self.regs.vlan_tag = ((vid as u32) & GMACVLAN_VID_MASK) | etv | vtim | esvl;
        self.regs.frame_filter = set_bits(self.regs.frame_filter, GMACFF_VTFE, true);
    }

    /// Stop filtering on VLAN tags.
    pub fn disable_vlan_filter(&mut self)
        ensures
            final(self).only_regs_changed(old(self)),
            final(self).regs_spec() == (EmacRegisters {
                vlan_tag: 0,
                frame_filter: with_bits(old(self).regs_spec().frame_filter, GMACFF_VTFE, false),
                ..old(self).regs_spec()
            }),
    {
        self.regs.vlan_tag = 0;
        self.regs.frame_filter = set_bits(self.regs.frame_filter, GMACFF_VTFE, false);
    }

    /// Whether VLAN filtering is on.
    pub fn is_vlan_filter_enabled(&self) -> (r: bool)
        ensures
            r == (self.regs_spec().frame_filter & GMACFF_VTFE != 0),
    {
        (self.regs.frame_filter & GMACFF_VTFE) != 0
    }

    /// The VLAN identifier filtered on.
    pub fn vlan_filter_id(&self) -> (r: u16)
        ensures
            r == self.regs_spec().vlan_tag & GMACVLAN_VID_MASK,
    {
        let t = self.regs.vlan_tag;
        let v = t & GMACVLAN_VID_MASK;
        proof {
            assert(v <= 0xFFF) by (bit_vector)
                requires
                    v == t & 0x0FFFu32,
            ;
        }
        v as u16
    }

    /// Program flow control on (with the configured pause settings and both
    /// directions) or off; off also ends any backpressure.
    fn apply_flow_control(&mut self, enable: bool)
        ensures
            final(self).dma_spec() == old(self).dma_spec(),
            final(self).config_spec() == old(self).config_spec(),
            final(self).state_spec() == old(self).state_spec(),
            final(self).peer_pause_spec() == old(self).peer_pause_spec(),
            final(self).regs_spec() == (EmacRegisters {
                flow_control: if enable {
                    flow_word(
                        old(self).config_spec().flow_control.pause_time,
                        threshold_bits(old(self).config_spec().flow_control.pause_low_threshold),
                        old(self).config_spec().flow_control.unicast_pause_detect,
                        true,
                        true,
                    )
                } else {
                    0
                },
                ..old(self).regs_spec()
            }),
            final(self).fc_active_spec() == (enable && old(self).fc_active_spec()),
            final(self).mac_spec() == old(self).mac_spec(),
    {
        if enable {
            let fc = self.config.flow_control;
            self.regs.flow_control = flow_control_word(
                fc.pause_time,
                fc.pause_low_threshold.bits(),
                fc.unicast_pause_detect,
                true,
                true,
            );
        } else {
            self.regs.flow_control = 0;
            self.flow_control_active = false;
        }
    }

    /// Enable or disable flow control in the configuration; it is programmed
    /// on only while the link partner supports PAUSE.
    pub fn enable_flow_control(&mut self, enable: bool)
        ensures
            final(self).dma_spec() == old(self).dma_spec(),
            final(self).state_spec() == old(self).state_spec(),
            final(self).config_spec() == (EmacConfig {
                flow_control: FlowControlConfig { enabled: enable, ..old(self).config_spec().flow_control },
                ..old(self).config_spec()
            }),
            final(self).peer_pause_spec() == old(self).peer_pause_spec(),
            final(self).regs_spec() == (EmacRegisters {
                flow_control: if enable && old(self).peer_pause_spec() {
                    flow_word(
                        old(self).config_spec().flow_control.pause_time,
                        threshold_bits(old(self).config_spec().flow_control.pause_low_threshold),
                        old(self).config_spec().flow_control.unicast_pause_detect,
                        true,
                        true,
                    )
                } else {
                    0
                },
                ..old(self).regs_spec()
            }),
            final(self).fc_active_spec() == (enable && old(self).peer_pause_spec() && old(
                self).fc_active_spec()),
    {
        self.config.flow_control.enabled = enable;
        let on = enable && self.peer_pause_ability;
        self.apply_flow_control(on);
    }

    /// Record whether the link partner supports PAUSE (from
    /// auto-negotiation) and program flow control accordingly.
    pub fn set_peer_pause_ability(&mut self, ability: bool)
        ensures
            final(self).dma_spec() == old(self).dma_spec(),
            final(self).state_spec() == old(self).state_spec(),
            final(self).config_spec() == old(self).config_spec(),
            final(self).peer_pause_spec() == ability,
            final(self).regs_spec() == (EmacRegisters {
                flow_control: if old(self).config_spec().flow_control.enabled && ability {
                    flow_word(
                        old(self).config_spec().flow_control.pause_time,
                        threshold_bits(old(self).config_spec().flow_control.pause_low_threshold),
                        old(self).config_spec().flow_control.unicast_pause_detect,
                        true,
                        true,
                    )
                } else {
                    0
                },
                ..old(self).regs_spec()
            }),
            final(self).fc_active_spec() == (old(self).config_spec().flow_control.enabled && ability
                && old(self).fc_active_spec()),
    {
        self.peer_pause_ability = ability;
        let on = self.config.flow_control.enabled && ability;
        self.apply_flow_control(on);
    }

    /// What `check_flow_control` on `prev` gives: `self` and the result `r`.
    pub open spec fn flow_checked(&self, prev: &Self, r: bool) -> bool {
        let d = prev.dma_spec();
        let free = rx_owned_count(d.rx_descs(), RX_BUFS as int);
        let waiting = rx_last_count(d.rx_descs(), d.rx_cur(), rx_owned_stop(d.rx_descs(), d.rx_cur(), 0)) > 0;
        let fc = prev.config_spec().flow_control;
        let on = fc.enabled && prev.peer_pause_spec();
        let start = on && !prev.fc_active_spec() && free < fc.low_water_mark && waiting;
        let end = on && prev.fc_active_spec() && (free > fc.high_water_mark || !waiting);
        &&& r == (start || end)
        &&& self.fc_active_spec() == if start {
            true
        } else if end {
            false
        } else {
            prev.fc_active_spec()
        }
        &&& self.regs_spec() == (EmacRegisters {
            flow_control: if start {
                prev.regs_spec().flow_control | GMACFC_FCBBPA
            } else if end {
                prev.regs_spec().flow_control & !GMACFC_FCBBPA
            } else {
                prev.regs_spec().flow_control
            },
            ..prev.regs_spec()
        })
        &&& self.dma_spec() == d
        &&& self.config_spec() == prev.config_spec()
        &&& self.state_spec() == prev.state_spec()
        &&& self.peer_pause_spec() == prev.peer_pause_spec()
        &&& self.mac_spec() == prev.mac_spec()
        &&& self.speed_spec() == prev.speed_spec()
        &&& self.duplex_spec() == prev.duplex_spec()
    }

    /// With the low water mark at or below the high one, flow control
    /// settles: a second check right after a first, on the same RX ring,
    /// changes nothing and reports no change.
    pub proof fn lemma_flow_control_settles(e0: &Self, e1: &Self, e2: &Self, r1: bool, r2: bool)
        requires
            e0.config_spec().flow_control.low_water_mark
                <= e0.config_spec().flow_control.high_water_mark,
            e1.flow_checked(e0, r1),
            e2.flow_checked(e1, r2),
        ensures
            !r2,
            e2.fc_active_spec() == e1.fc_active_spec(),
            e2.regs_spec() == e1.regs_spec(),
    {
    }

    /// Backpressure ends once the RX ring has drained past the high water
    /// mark: with flow control enabled, a partner that has PAUSE and
    /// backpressure active, a check that finds more DMA-owned RX descriptors
    /// than the high water mark reports a change, ends backpressure and
    /// clears FCBBPA, whether or not frames still wait.
    pub proof fn lemma_flow_control_ends_above_high_mark(e0: &Self, e1: &Self, r: bool)
        requires
            e1.flow_checked(e0, r),
            e0.config_spec().flow_control.enabled,
            e0.peer_pause_spec(),
            e0.fc_active_spec(),
            rx_owned_count(e0.dma_spec().rx_descs(), RX_BUFS as int)
                > e0.config_spec().flow_control.high_water_mark,
        ensures
            r,
            !e1.fc_active_spec(),
            e1.regs_spec().flow_control & GMACFC_FCBBPA == 0,
    {
        crate::regs::lemma_word_bits();
    }

    /// Backpressure starts once the RX ring fills below the low water mark
    /// with a frame waiting: with flow control enabled, a partner that has
    /// PAUSE and no backpressure yet, a check that finds fewer DMA-owned RX
    /// descriptors than the low water mark and a complete frame waiting
    /// reports a change, starts backpressure and sets FCBBPA.
    pub proof fn lemma_flow_control_starts_below_low_mark(e0: &Self, e1: &Self, r: bool)
        requires
            e1.flow_checked(e0, r),
            e0.config_spec().flow_control.enabled,
            e0.peer_pause_spec(),
            !e0.fc_active_spec(),
            rx_owned_count(e0.dma_spec().rx_descs(), RX_BUFS as int)
                < e0.config_spec().flow_control.low_water_mark,
            rx_last_count(
                e0.dma_spec().rx_descs(),
                e0.dma_spec().rx_cur(),
                rx_owned_stop(e0.dma_spec().rx_descs(), e0.dma_spec().rx_cur(), 0),
            ) > 0,
        ensures
            r,
            e1.fc_active_spec(),
            e1.regs_spec().flow_control & GMACFC_FCBBPA != 0,
    {
        crate::regs::lemma_word_bits();
    }

    /// Decide on backpressure from the RX ring: start it (request a PAUSE
    /// frame) when fewer descriptors than the low water mark are free while
    /// frames wait, end it when more than the high water mark are free or
    /// no frame waits. Returns whether the decision changed. Nothing happens
    /// while flow control is disabled or the partner lacks PAUSE.
    pub fn check_flow_control(&mut self) -> (r: bool)
        requires
            old(self).wf(),
        ensures
            final(self).wf(),
            final(self).flow_checked(old(self), r),
    {
        if !self.config.flow_control.enabled || !self.peer_pause_ability {
            return false;
        }
        let low = self.config.flow_control.low_water_mark;
        let high = self.config.flow_control.high_water_mark;
        let free_descriptors = self.dma.rx_free_count();
        let frames_remain = self.dma.rx_frame_count() > 0;
        if !self.flow_control_active && free_descriptors < low && frames_remain {
            self.regs.flow_control = self.regs.flow_control | GMACFC_FCBBPA;
            self.flow_control_active = true;
            return true;
        }
        if self.flow_control_active && (free_descriptors > high || !frames_remain) {
            self.regs.flow_control = self.regs.flow_control & !GMACFC_FCBBPA;
            self.flow_control_active = false;
            return true;
        }
        false
    }

    /// Whether backpressure is being applied.
    pub fn is_flow_control_active(&self) -> (r: bool)
        ensures
            r == self.fc_active_spec(),
    {
        self.flow_control_active
    }

    /// The flow control settings.
    pub fn flow_control_config(&self) -> (r: &FlowControlConfig)
        ensures
            *r == self.config_spec().flow_control,
    {
        &self.config.flow_control
    }

    /// Whether the link partner supports PAUSE.
    pub fn peer_pause_ability(&self) -> (r: bool)
        ensures
            r == self.peer_pause_spec(),
    {
        self.peer_pause_ability
    }
}

impl<const RX_BUFS: usize, const TX_BUFS: usize, const BUF_SIZE: usize> Default for Emac<
    RX_BUFS,
    TX_BUFS,
    BUF_SIZE,
> {
    /// Same as `new`.
    fn default() -> (e: Self)
        ensures
            DmaEngine::<RX_BUFS, TX_BUFS, BUF_SIZE>::valid_dims() ==> e.wf(),
            e.state_spec() == State::Uninitialized,
            e.config_spec() == default_config(),
    {
        Self::new()
    }
}

} // verus!
