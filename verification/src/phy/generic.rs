//! Link status, PHY capabilities and the PHY driver trait.

use vstd::prelude::*;
use crate::config::{Duplex, Speed};
use crate::error::Result;
use crate::mdio::MdioBus;

verus! {

/// Negotiated or forced link parameters.
#[derive(Debug, Clone, Copy, PartialEq, Eq, Structural)]
pub struct LinkStatus {
    /// Link speed
    pub speed: Speed,
    /// Duplex mode
    pub duplex: Duplex,
}

impl LinkStatus {
    /// Link status with the given speed and duplex.
    pub fn new(speed: Speed, duplex: Duplex) -> (r: Self)
        ensures
            r == (LinkStatus { speed, duplex }),
    {
        LinkStatus { speed, duplex }
    }

    /// 100 Mbps full duplex.
    pub fn fast_full() -> (r: Self)
        ensures
            r == (LinkStatus { speed: Speed::Mbps100, duplex: Duplex::Full }),
    {
        Self::new(Speed::Mbps100, Duplex::Full)
    }

    /// 100 Mbps half duplex.
    pub fn fast_half() -> (r: Self)
        ensures
            r == (LinkStatus { speed: Speed::Mbps100, duplex: Duplex::Half }),
    {
        Self::new(Speed::Mbps100, Duplex::Half)
    }

    /// 10 Mbps full duplex.
    pub fn slow_full() -> (r: Self)
        ensures
            r == (LinkStatus { speed: Speed::Mbps10, duplex: Duplex::Full }),
    {
        Self::new(Speed::Mbps10, Duplex::Full)
    }

    /// 10 Mbps half duplex.
    pub fn slow_half() -> (r: Self)
        ensures
            r == (LinkStatus { speed: Speed::Mbps10, duplex: Duplex::Half }),
    {
        Self::new(Speed::Mbps10, Duplex::Half)
    }
}

/// What a PHY, or its link partner, supports.
#[derive(Debug, Clone, Copy, PartialEq, Eq, Structural)]
pub struct PhyCapabilities {
    /// 100BASE-TX full duplex
    pub speed_100_fd: bool,
    /// 100BASE-TX half duplex
    pub speed_100_hd: bool,
    /// 10BASE-T full duplex
    pub speed_10_fd: bool,
    /// 10BASE-T half duplex
    pub speed_10_hd: bool,
    /// Auto-negotiation
    pub auto_negotiation: bool,
    /// Symmetric PAUSE
    pub pause: bool,
    /// Asymmetric PAUSE
    pub pause_asymmetric: bool,
}

/// Every 10/100 mode, auto-negotiation and symmetric PAUSE.
pub open spec fn standard_capabilities() -> PhyCapabilities {
    PhyCapabilities {
        speed_100_fd: true,
        speed_100_hd: true,
        speed_10_fd: true,
        speed_10_hd: true,
        auto_negotiation: true,
        pause: true,
        pause_asymmetric: false,
    }
}

impl PhyCapabilities {
    /// The capabilities of a standard 10/100 PHY.
    pub fn standard_10_100() -> (r: Self)
        ensures
            r == standard_capabilities(),
    {
        PhyCapabilities {
            speed_100_fd: true,
            speed_100_hd: true,
            speed_10_fd: true,
            speed_10_hd: true,
            auto_negotiation: true,
            pause: true,
            pause_asymmetric: false,
        }
    }
}

impl Default for PhyCapabilities {
    /// Nothing supported.
    fn default() -> (r: Self)
        ensures
            r == (PhyCapabilities {
                speed_100_fd: false,
                speed_100_hd: false,
                speed_10_fd: false,
                speed_10_hd: false,
                auto_negotiation: false,
                pause: false,
                pause_asymmetric: false,
            }),
    {
        PhyCapabilities {
            speed_100_fd: false,
            speed_100_hd: false,
            speed_10_fd: false,
            speed_10_hd: false,
            auto_negotiation: false,
            pause: false,
            pause_asymmetric: false,
        }
    }
}

/// A PHY driver: initialization, link state and configuration over MDIO.
pub trait PhyDriver {
    /// The PHY's MDIO address.
    fn address(&self) -> u8;

    /// Reset and configure the PHY for operation.
    fn init<M: MdioBus>(&mut self, mdio: &mut M) -> Result<()>;

    /// Software reset through BMCR.
    fn soft_reset<M: MdioBus>(&mut self, mdio: &mut M) -> Result<()>;

    /// Whether the link is up.
    fn is_link_up<M: MdioBus>(&self, mdio: &mut M) -> Result<bool>;

    /// The link parameters, or `None` while the link is down.
    fn link_status<M: MdioBus>(&self, mdio: &mut M) -> Result<Option<LinkStatus>>;

    /// The link parameters when the link has just come up, `None` otherwise.
    fn poll_link<M: MdioBus>(&mut self, mdio: &mut M) -> Result<Option<LinkStatus>>;

    /// Enable and restart auto-negotiation.
    fn enable_auto_negotiation<M: MdioBus>(&mut self, mdio: &mut M) -> Result<()>;

    /// Force speed and duplex, auto-negotiation off.
    fn force_link<M: MdioBus>(&mut self, mdio: &mut M, status: LinkStatus) -> Result<()>;

    /// What the PHY supports.
    fn capabilities<M: MdioBus>(&self, mdio: &mut M) -> Result<PhyCapabilities>;

    /// The 32-bit PHY identifier.
    fn phy_id<M: MdioBus>(&self, mdio: &mut M) -> Result<u32>;

    /// Whether auto-negotiation is complete.
    fn is_auto_negotiation_complete<M: MdioBus>(&self, mdio: &mut M) -> Result<bool>;

    /// What the link partner advertised.
    fn link_partner_abilities<M: MdioBus>(&self, mdio: &mut M) -> Result<PhyCapabilities>;
}

} // verus!
