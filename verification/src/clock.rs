//! EMAC clock control: the PHY interface and RMII clock selection and the
//! clock enable state.

use vstd::prelude::*;
use crate::config::{PhyInterface, RmiiClockMode};
use crate::error::{ConfigError, Error, Result};
use crate::regs::ext::{
    EX_PHYINF_CLK_INV, EX_PHYINF_RMII_CLK_SEL, EX_PHYINF_RMII_EN, EX_PHYINF_RMII_EXT_RX_CLK_EN,
    EX_PHYINF_RMII_REF_CLK_OUT_EN,
};

verus! {

/// Clock state.
#[derive(Debug, Clone, Copy, PartialEq, Eq, Structural)]
pub enum ClockState {
    /// Not configured yet
    Unconfigured,
    /// Clocks enabled
    Enabled,
    /// Clocks disabled
    Disabled,
}

impl Default for ClockState {
    /// Unconfigured.
    fn default() -> (r: Self)
        ensures
            r == ClockState::Unconfigured,
    {
        ClockState::Unconfigured
    }
}

/// Whether `clock` is a clock source the ESP32 can use: an external input
/// only on GPIO0, an internal output on GPIO0, GPIO16 or GPIO17.
pub open spec fn valid_rmii_clock(clock: RmiiClockMode) -> bool {
    match clock {
        RmiiClockMode::ExternalInput { gpio } => gpio == 0,
        RmiiClockMode::InternalOutput { gpio } => gpio == 0 || gpio == 16 || gpio == 17,
    }
}

/// The PHY interface configuration word `conf` set up for `interface` and,
/// for RMII, the clock source `clock`; the other bits are kept.
pub open spec fn phy_inf_word(conf: u32, interface: PhyInterface, clock: RmiiClockMode) -> u32 {
    match interface {
        PhyInterface::Rmii => match clock {
            RmiiClockMode::ExternalInput { .. } => ((conf | EX_PHYINF_RMII_EN) & !(
            EX_PHYINF_RMII_CLK_SEL | EX_PHYINF_RMII_REF_CLK_OUT_EN))
                | EX_PHYINF_RMII_EXT_RX_CLK_EN,
            RmiiClockMode::InternalOutput { .. } => ((conf | EX_PHYINF_RMII_EN
                | EX_PHYINF_RMII_CLK_SEL | EX_PHYINF_RMII_REF_CLK_OUT_EN)
                & !EX_PHYINF_RMII_EXT_RX_CLK_EN),
        },
        PhyInterface::Mii => conf & !(EX_PHYINF_RMII_EN | EX_PHYINF_RMII_CLK_SEL
            | EX_PHYINF_RMII_REF_CLK_OUT_EN),
    }
}

/// The PHY interface configuration word `conf` set up for `interface` and,
/// for RMII, the clock source `clock`, whichever GPIO it names; the driver
/// programs this word during initialization.
pub fn phy_interface_word(conf: u32, interface: PhyInterface, clock: RmiiClockMode) -> (r: u32)
    ensures
        r == phy_inf_word(conf, interface, clock),
{
    match interface {
        PhyInterface::Rmii => match clock {
            RmiiClockMode::ExternalInput { .. } => ((conf | EX_PHYINF_RMII_EN) & !(
            EX_PHYINF_RMII_CLK_SEL | EX_PHYINF_RMII_REF_CLK_OUT_EN))
                | EX_PHYINF_RMII_EXT_RX_CLK_EN,
            RmiiClockMode::InternalOutput { .. } => ((conf | EX_PHYINF_RMII_EN
                | EX_PHYINF_RMII_CLK_SEL | EX_PHYINF_RMII_REF_CLK_OUT_EN)
                & !EX_PHYINF_RMII_EXT_RX_CLK_EN),
        },
        PhyInterface::Mii => conf & !(EX_PHYINF_RMII_EN | EX_PHYINF_RMII_CLK_SEL
            | EX_PHYINF_RMII_REF_CLK_OUT_EN),
    }
}

/// EMAC clock controller.
#[derive(Debug)]
pub struct ClockController {
    /// Clock state
    state: ClockState,
    /// Configured PHY interface
    interface: PhyInterface,
}

impl ClockController {
    /// The clock state.
    pub closed spec fn state_spec(&self) -> ClockState {
        self.state
    }

    /// The configured PHY interface.
    pub closed spec fn interface_spec(&self) -> PhyInterface {
        self.interface
    }

    /// Unconfigured controller for RMII.
    pub fn new() -> (r: Self)
        ensures
            r.state_spec() == ClockState::Unconfigured,
            r.interface_spec() == PhyInterface::Rmii,
    {
        ClockController { state: ClockState::Unconfigured, interface: PhyInterface::Rmii }
    }

    /// Select `interface` and, for RMII, the clock source: the new PHY
    /// interface configuration word, from its current value `conf`. An RMII
    /// clock on a GPIO the ESP32 cannot use is refused with `InvalidConfig`.
    pub fn configure(&mut self, interface: PhyInterface, rmii_clock: RmiiClockMode, conf: u32) -> (r:
        Result<u32>)
        ensures
            final(self).interface_spec() == interface,
            final(self).state_spec() == old(self).state_spec(),
            interface == PhyInterface::Rmii && !valid_rmii_clock(rmii_clock) ==> r == Err::<
                u32,
                Error,
            >(Error::Config(ConfigError::InvalidConfig)),
            interface == PhyInterface::Mii || valid_rmii_clock(rmii_clock) ==> r == Ok::<
                u32,
                Error,
            >(phy_inf_word(conf, interface, rmii_clock)),
    {
        self.interface = interface;
        match interface {
            PhyInterface::Rmii => self.configure_rmii(rmii_clock, conf),
            PhyInterface::Mii => Ok(self.configure_mii(conf)),
        }
    }

    /// The RMII configuration word for `clock_mode`.
    fn configure_rmii(&self, clock_mode: RmiiClockMode, conf: u32) -> (r: Result<u32>)
        ensures
            !valid_rmii_clock(clock_mode) ==> r == Err::<u32, Error>(
                Error::Config(ConfigError::InvalidConfig),
            ),
            valid_rmii_clock(clock_mode) ==> r == Ok::<u32, Error>(
                phy_inf_word(conf, PhyInterface::Rmii, clock_mode),
            ),
    {
        let mut c = conf | EX_PHYINF_RMII_EN;
        match clock_mode {
            RmiiClockMode::ExternalInput { gpio } => {
                c = c & !EX_PHYINF_RMII_CLK_SEL;
                c = c | EX_PHYINF_RMII_EXT_RX_CLK_EN;
                c = c & !EX_PHYINF_RMII_REF_CLK_OUT_EN;
                proof {
                    assert((((conf | 0x8000u32) & !0x1u32) | 0x2u32) & !0x4u32 == ((conf
                        | 0x8000u32) & !(0x1u32 | 0x4u32)) | 0x2u32) by (bit_vector);
                }
                if gpio != 0 {
                    return Err(Error::Config(ConfigError::InvalidConfig));
                }
            },
            RmiiClockMode::InternalOutput { gpio } => {
                c = c | EX_PHYINF_RMII_CLK_SEL;
                c = c | EX_PHYINF_RMII_REF_CLK_OUT_EN;
                c = c & !EX_PHYINF_RMII_EXT_RX_CLK_EN;
                proof {
                    assert((((conf | 0x8000u32) | 0x1u32) | 0x4u32) & !0x2u32 == (conf | 0x8000u32
                        | 0x1u32 | 0x4u32) & !0x2u32) by (bit_vector);
                }
                if gpio != 0 && gpio != 16 && gpio != 17 {
                    return Err(Error::Config(ConfigError::InvalidConfig));
                }
            },
        }
        Ok(c)
    }

    /// The MII configuration word: RMII mode, internal clock and clock
    /// output cleared.
    fn configure_mii(&self, conf: u32) -> (r: u32)
        ensures
            r == phy_inf_word(conf, PhyInterface::Mii, RmiiClockMode::ExternalInput { gpio: 0 }),
    {
        let mut c = conf & !EX_PHYINF_RMII_EN;
        c = c & !EX_PHYINF_RMII_CLK_SEL;
        c = c & !EX_PHYINF_RMII_REF_CLK_OUT_EN;
        proof {
            assert(((conf & !0x8000u32) & !0x1u32) & !0x4u32 == conf & !(0x8000u32 | 0x1u32
                | 0x4u32)) by (bit_vector);
        }
        c
    }

    /// Record the clocks as enabled; the hardware layer turns them on and
    /// powers up the EMAC RAM.
    pub fn enable(&mut self)
        ensures
            final(self).state_spec() == ClockState::Enabled,
            final(self).interface_spec() == old(self).interface_spec(),
    {
        self.state = ClockState::Enabled;
    }

    /// Record the clocks as disabled; the hardware layer turns them off.
    pub fn disable(&mut self)
        ensures
            final(self).state_spec() == ClockState::Disabled,
            final(self).interface_spec() == old(self).interface_spec(),
    {
        self.state = ClockState::Disabled;
    }

    /// Whether the clocks are enabled.
    pub fn is_enabled(&self) -> (r: bool)
        ensures
            r == (self.state_spec() == ClockState::Enabled),
    {
        match self.state {
            ClockState::Enabled => true,
            _ => false,
        }
    }

    /// The clock state.
    pub fn state(&self) -> (r: ClockState)
        ensures
            r == self.state_spec(),
    {
        self.state
    }

    /// The PHY interface configuration word `conf` with clock inversion set
    /// or cleared.
    pub fn set_clock_inversion(&self, conf: u32, invert: bool) -> (r: u32)
        ensures
            r == if invert {
                conf | EX_PHYINF_CLK_INV
            } else {
                conf & !EX_PHYINF_CLK_INV
            },
    {
        if invert {
            conf | EX_PHYINF_CLK_INV
        } else {
            conf & !EX_PHYINF_CLK_INV
        }
    }
}

impl Default for ClockController {
    /// Same as `new`.
    fn default() -> (r: Self)
        ensures
            r.state_spec() == ClockState::Unconfigured,
            r.interface_spec() == PhyInterface::Rmii,
    {
        Self::new()
    }
}

} // verus!
