//! Bring-up helpers: a builder that collects the EMAC configuration, and a
//! bundle of the EMAC with its PHY and MDIO bus that keeps the MAC's speed
//! and duplex in step with the link the PHY reports.
//!
//! What needs a delay provider or the hardware (initialization itself and
//! the timed wait for a link) belongs to the hardware layer; the decision of
//! each step of the wait is [`link_wait_step`].

use vstd::prelude::*;
use crate::boards::wt32_eth01::Wt32Eth01;
use crate::config::{default_config, EmacConfig, PhyInterface, RmiiClockMode};
use crate::emac::Emac;
use crate::error::{ConfigError, Error, IoError, Result};
use crate::mdio::MdioBus;
use crate::phy::generic::{LinkStatus, PhyDriver};

verus! {

/// Collects the configuration an EMAC is brought up with.
pub struct EmacBuilder<'a, const RX: usize, const TX: usize, const BUF: usize> {
    /// The EMAC, already in its final memory location
    pub emac: &'a mut Emac<RX, TX, BUF>,
    /// The configuration collected so far
    pub config: EmacConfig,
}

impl<'a, const RX: usize, const TX: usize, const BUF: usize> EmacBuilder<'a, RX, TX, BUF> {
    /// A builder with the ESP32 RMII defaults.
    pub fn new(emac: &'a mut Emac<RX, TX, BUF>) -> (r: Self)
        ensures
            *r.emac == *old(emac),
            *final(r.emac) == *final(emac),
            r.config == default_config(),
    {
        EmacBuilder { emac, config: EmacConfig::rmii_esp32_default() }
    }

    /// A builder with the WT32-ETH01 board configuration.
    pub fn wt32_eth01(emac: &'a mut Emac<RX, TX, BUF>) -> (r: Self)
        ensures
            *r.emac == *old(emac),
            *final(r.emac) == *final(emac),
            r.config == (EmacConfig {
                phy_interface: PhyInterface::Rmii,
                rmii_clock: RmiiClockMode::ExternalInput { gpio: 0 },
                ..default_config()
            }),
    {
        EmacBuilder { emac, config: Wt32Eth01::emac_config() }
    }

    /// A builder with the WT32-ETH01 board configuration and the MAC
    /// address `mac_address`.
    pub fn wt32_eth01_with_mac(emac: &'a mut Emac<RX, TX, BUF>, mac_address: [u8; 6]) -> (r: Self)
        ensures
            *r.emac == *old(emac),
            *final(r.emac) == *final(emac),
            r.config == (EmacConfig {
                phy_interface: PhyInterface::Rmii,
                rmii_clock: RmiiClockMode::ExternalInput { gpio: 0 },
                mac_address,
                ..default_config()
            }),
    {
        EmacBuilder { emac, config: Wt32Eth01::emac_config_with_mac(mac_address) }
    }

    /// Replace the whole configuration.
    pub fn with_config(self, config: EmacConfig) -> (r: Self)
        ensures
            *r.emac == *old(self.emac),
            *final(r.emac) == *final(self.emac),
            r.config == config,
    {
        EmacBuilder { emac: self.emac, config }
    }

    /// Set the MAC address.
    pub fn with_mac_address(self, mac_address: [u8; 6]) -> (r: Self)
        ensures
            *r.emac == *old(self.emac),
            *final(r.emac) == *final(self.emac),
            r.config == (EmacConfig { mac_address, ..self.config }),
    {
        let config = self.config.with_mac_address(mac_address);
        EmacBuilder { emac: self.emac, config }
    }

    /// Set the RMII clock mode.
    pub fn with_rmii_clock(self, rmii_clock: RmiiClockMode) -> (r: Self)
        ensures
            *r.emac == *old(self.emac),
            *final(r.emac) == *final(self.emac),
            r.config == (EmacConfig { rmii_clock, ..self.config }),
    {
        let config = self.config.with_rmii_clock(rmii_clock);
        EmacBuilder { emac: self.emac, config }
    }

    /// Take the RMII reference clock as an external 50 MHz input on `gpio`.
    pub fn with_rmii_external_clock(self, gpio: u8) -> (r: Self)
        ensures
            *r.emac == *old(self.emac),
            *final(r.emac) == *final(self.emac),
            r.config == (EmacConfig { rmii_clock: RmiiClockMode::ExternalInput { gpio }, ..self.config }),
    {
        self.with_rmii_clock(RmiiClockMode::ExternalInput { gpio })
    }

    /// Drive the RMII reference clock as an internal 50 MHz output on `gpio`.
    pub fn with_rmii_internal_clock(self, gpio: u8) -> (r: Self)
        ensures
            *r.emac == *old(self.emac),
            *final(r.emac) == *final(self.emac),
            r.config == (EmacConfig { rmii_clock: RmiiClockMode::InternalOutput { gpio }, ..self.config }),
    {
        self.with_rmii_clock(RmiiClockMode::InternalOutput { gpio })
    }
}

/// The EMAC together with its PHY driver and MDIO bus.
pub struct EmacPhyBundle<'a, const RX: usize, const TX: usize, const BUF: usize, P, M> {
    /// The EMAC
    pub emac: &'a mut Emac<RX, TX, BUF>,
    /// The PHY driver
    pub phy: P,
    /// The MDIO bus the PHY is reached through
    pub mdio: M,
}

impl<'a, const RX: usize, const TX: usize, const BUF: usize, P: PhyDriver, M: MdioBus> EmacPhyBundle<
    'a,
    RX,
    TX,
    BUF,
    P,
    M,
> {
    /// Bundle an EMAC with its PHY driver and MDIO bus.
    pub fn new(emac: &'a mut Emac<RX, TX, BUF>, phy: P, mdio: M) -> (r: Self)
        ensures
            *r.emac == *old(emac),
            *final(r.emac) == *final(emac),
            r.phy == phy,
            r.mdio == mdio,
    {
        EmacPhyBundle { emac, phy, mdio }
    }

    /// The EMAC.
    pub fn emac_mut(&mut self) -> (r: &mut Emac<RX, TX, BUF>)
        ensures
            *r == *old(self).emac,
            *final(self).emac == *final(r),
            final(self).phy == old(self).phy,
            final(self).mdio == old(self).mdio,
    {
        self.emac
    }

    /// The PHY driver.
    pub fn phy_mut(&mut self) -> (r: &mut P)
        ensures
            *r == old(self).phy,
            final(self).phy == *final(r),
            *final(self).emac == *old(self).emac,
            final(self).mdio == old(self).mdio,
    {
        &mut self.phy
    }

    /// The MDIO bus.
    pub fn mdio_mut(&mut self) -> (r: &mut M)
        ensures
            *r == old(self).mdio,
            final(self).mdio == *final(r),
            *final(self).emac == *old(self).emac,
            final(self).phy == old(self).phy,
    {
        &mut self.mdio
    }

    /// Initialize the PHY; the EMAC is left alone.
    pub fn init_phy(&mut self) -> (r: Result<()>)
        ensures
            *final(self).emac == *old(self).emac,
    {
        self.phy.init(&mut self.mdio)
    }

    /// Set the EMAC's speed and duplex to those of a link that is up;
    /// nothing changes for a link that is down.
    fn apply_link(&mut self, status: Option<LinkStatus>)
        ensures
            final(self).phy == old(self).phy,
            final(self).mdio == old(self).mdio,
            status matches Some(st) ==> final(self).emac.link_set(old(self).emac, st.speed, st.duplex),
            status is None ==> *final(self).emac == *old(self).emac,
    {
        if let Some(st) = status {
            self.emac.update_link(st.speed, st.duplex);
        }
    }

    /// Read the link from the PHY and apply a link that is up to the EMAC:
    /// the link, or `None` while it is down.
    pub fn link_status(&mut self) -> (r: Result<Option<LinkStatus>>)
        ensures
            final(self).phy == old(self).phy,
            r matches Ok(Some(st)) ==> final(self).emac.link_set(old(self).emac, st.speed, st.duplex),
            !(r matches Ok(Some(_))) ==> *final(self).emac == *old(self).emac,
    {
        let status = self.phy.link_status(&mut self.mdio)?;
        self.apply_link(status);
        Ok(status)
    }

    /// Poll the PHY for a link that has just come up and apply it to the
    /// EMAC: the new link, or `None`.
    pub fn poll_link(&mut self) -> (r: Result<Option<LinkStatus>>)
        ensures
            r matches Ok(Some(st)) ==> final(self).emac.link_set(old(self).emac, st.speed, st.duplex),
            !(r matches Ok(Some(_))) ==> *final(self).emac == *old(self).emac,
    {
        let status = self.phy.poll_link(&mut self.mdio)?;
        self.apply_link(status);
        Ok(status)
    }

    /// Take the bundle apart.
    pub fn into_parts(self) -> (r: (&'a mut Emac<RX, TX, BUF>, P, M))
        ensures
            *r.0 == *old(self.emac),
            *final(r.0) == *final(self.emac),
            r.1 == self.phy,
            r.2 == self.mdio,
    {
        (self.emac, self.phy, self.mdio)
    }
}

/// A borrowed EMAC for code written against the esp-hal integration.
pub struct EspHalEmac<'a, const RX: usize, const TX: usize, const BUF: usize> {
    /// The EMAC
    pub inner: &'a mut Emac<RX, TX, BUF>,
}

impl<'a, const RX: usize, const TX: usize, const BUF: usize> EspHalEmac<'a, RX, TX, BUF> {
    /// Wrap an EMAC.
    pub fn new(inner: &'a mut Emac<RX, TX, BUF>) -> (r: Self)
        ensures
            *r.inner == *old(inner),
            *final(r.inner) == *final(inner),
    {
        EspHalEmac { inner }
    }

    /// The EMAC.
    pub fn inner(&self) -> (r: &Emac<RX, TX, BUF>)
        ensures
            *r == *old(self.inner),
    {
        self.inner
    }

    /// The EMAC, for changes.
    pub fn inner_mut(&mut self) -> (r: &mut Emac<RX, TX, BUF>)
        ensures
            *r == *old(self).inner,
            *final(self).inner == *final(r),
    {
        self.inner
    }
}

/// What to do after one look at the link while waiting for it to come up.
#[derive(Debug, Clone, Copy, PartialEq, Eq, Structural)]
pub enum LinkWait {
    /// The link is up with these parameters
    Up(LinkStatus),
    /// Wait the poll interval, then look again; the time waited by then
    Poll(u32),
}

/// The wait for a link may start only with a poll interval above zero:
/// `InvalidConfig` otherwise.
pub fn link_wait_start(poll_interval_ms: u32) -> (r: Result<()>)
    ensures
        poll_interval_ms == 0 ==> r == Err::<(), Error>(Error::Config(ConfigError::InvalidConfig)),
        poll_interval_ms > 0 ==> r == Ok::<(), Error>(()),
{
    if poll_interval_ms == 0 {
        return Err(Error::Config(ConfigError::InvalidConfig));
    }
    Ok(())
}

/// The next step of a wait for a link, after `elapsed_ms` of waiting and a
/// look that found `link`: done if the link is up; another poll, after which
/// `elapsed_ms` plus the interval (saturating) have passed, while less than
/// `timeout_ms` has passed; `Timeout` once it has.
pub fn link_wait_step(
    elapsed_ms: u32,
    timeout_ms: u32,
    poll_interval_ms: u32,
    link: Option<LinkStatus>,
) -> (r: Result<LinkWait>)
    ensures
        link matches Some(st) ==> r == Ok::<LinkWait, Error>(LinkWait::Up(st)),
        link is None && elapsed_ms < timeout_ms ==> r == Ok::<LinkWait, Error>(
            LinkWait::Poll(
                if elapsed_ms + poll_interval_ms > u32::MAX {
                    u32::MAX
                } else {
                    (elapsed_ms + poll_interval_ms) as u32
                },
            ),
        ),
        link is None && elapsed_ms >= timeout_ms ==> r == Err::<LinkWait, Error>(
            Error::Io(IoError::Timeout),
        ),
{
    if let Some(st) = link {
        return Ok(LinkWait::Up(st));
    }
    if elapsed_ms < timeout_ms {
        Ok(LinkWait::Poll(elapsed_ms.saturating_add(poll_interval_ms)))
    } else {
        Err(Error::Io(IoError::Timeout))
    }
}

/// With a poll interval above zero, every step that asks for another poll
/// adds the whole interval to the time waited, or reaches the timeout: the
/// time waited grows with every poll, so the wait for a link ends.
pub proof fn lemma_link_wait_progress(elapsed_ms: u32, timeout_ms: u32, poll_interval_ms: u32, next: u32)
    requires
        poll_interval_ms > 0,
        elapsed_ms < timeout_ms,
        next == (if elapsed_ms + poll_interval_ms > u32::MAX {
            u32::MAX
        } else {
            (elapsed_ms + poll_interval_ms) as u32
        }),
    ensures
        next > elapsed_ms,
        next >= timeout_ms || next == elapsed_ms + poll_interval_ms,
{
}

} // verus!
