use std::collections::HashMap;

use ph_esp32_mac::bringup::{
    link_wait_start, link_wait_step, EmacBuilder, EmacPhyBundle, EspHalEmac, LinkWait,
};
use ph_esp32_mac::boards::wt32_eth01::Wt32Eth01;
use ph_esp32_mac::config::{Duplex, EmacConfig, PhyInterface, RmiiClockMode, Speed};
use ph_esp32_mac::emac::{phy_access_command, tx_process_stopped, Emac};
use ph_esp32_mac::error::{ConfigError, Error, IoError, Result};
use ph_esp32_mac::mdio::{bmsr, phy_reg, MdioBus};
use ph_esp32_mac::phy::generic::LinkStatus;
use ph_esp32_mac::phy::lan8720a::reg;
use ph_esp32_mac::regs::mac::{GMACCONFIG_DM, GMACCONFIG_FES};

type SmallEmac = Emac<4, 4, 64>;

/// MDIO bus test double: a register file per PHY address.
struct RegisterFile {
    registers: HashMap<(u8, u8), u16>,
}

impl RegisterFile {
    fn new() -> Self {
        Self { registers: HashMap::new() }
    }

    fn set(&mut self, addr: u8, reg_addr: u8, value: u16) {
        self.registers.insert((addr, reg_addr), value);
    }
}

impl MdioBus for RegisterFile {
    fn read(&mut self, phy_addr: u8, reg_addr: u8) -> Result<u16> {
        Ok(*self.registers.get(&(phy_addr, reg_addr)).unwrap_or(&0))
    }

    fn write(&mut self, phy_addr: u8, reg_addr: u8, value: u16) -> Result<()> {
        self.registers.insert((phy_addr, reg_addr), value);
        Ok(())
    }

    fn is_busy(&self) -> bool {
        false
    }
}

#[test]
fn builder_collects_configuration() {
    let mut emac = SmallEmac::new();
    let b = EmacBuilder::new(&mut emac);
    assert_eq!(b.config, EmacConfig::new());
    let b = b.with_mac_address([1, 2, 3, 4, 5, 6]).with_rmii_internal_clock(17);
    assert_eq!(b.config.mac_address, [1, 2, 3, 4, 5, 6]);
    assert_eq!(b.config.rmii_clock, RmiiClockMode::InternalOutput { gpio: 17 });
    let b = b.with_rmii_external_clock(0);
    assert_eq!(b.config.rmii_clock, RmiiClockMode::ExternalInput { gpio: 0 });
    let b = b.with_config(EmacConfig::new().with_promiscuous(true));
    assert!(b.config.promiscuous);
    assert_eq!(b.config.mac_address, EmacConfig::new().mac_address);
}

#[test]
fn builder_for_wt32_eth01() {
    let mut emac = SmallEmac::new();
    let b = EmacBuilder::wt32_eth01_with_mac(&mut emac, [0x02, 0, 0, 0x12, 0x34, 0x56]);
    assert_eq!(b.config, Wt32Eth01::emac_config_with_mac([0x02, 0, 0, 0x12, 0x34, 0x56]));
    assert_eq!(b.config.phy_interface, PhyInterface::Rmii);
    let mut emac2 = SmallEmac::new();
    let b2 = EmacBuilder::wt32_eth01(&mut emac2);
    assert_eq!(b2.config, Wt32Eth01::emac_config());
}

#[test]
fn bundle_applies_link_to_emac() {
    let mut emac = SmallEmac::new();
    let mut bus = RegisterFile::new();
    bus.set(1, phy_reg::BMSR, 0x7809);
    let mut bundle = EmacPhyBundle::new(&mut emac, Wt32Eth01::lan8720a(), bus);
    assert_eq!(bundle.link_status(), Ok(None));
    assert_eq!(bundle.emac_mut().speed(), Speed::Mbps100);

    bundle.mdio_mut().set(1, phy_reg::BMSR, 0x7809 | bmsr::LINK_STATUS | bmsr::AN_COMPLETE);
    bundle.mdio_mut().set(1, reg::PSCSR, 0x1004);
    assert_eq!(
        bundle.link_status(),
        Ok(Some(LinkStatus { speed: Speed::Mbps10, duplex: Duplex::Half }))
    );
    let (emac_ref, phy, _bus) = bundle.into_parts();
    assert_eq!(emac_ref.speed(), Speed::Mbps10);
    assert_eq!(emac_ref.duplex(), Duplex::Half);
    assert_eq!(emac_ref.registers().mac_config & (GMACCONFIG_FES | GMACCONFIG_DM), 0);
    assert!(!phy.last_link_up);
}

#[test]
fn bundle_poll_reports_new_link_once() {
    let mut emac = SmallEmac::new();
    let mut bus = RegisterFile::new();
    bus.set(1, phy_reg::BMSR, bmsr::LINK_STATUS | bmsr::AN_COMPLETE);
    bus.set(1, reg::PSCSR, 0x1018);
    let mut bundle = EmacPhyBundle::new(&mut emac, Wt32Eth01::lan8720a(), bus);
    assert_eq!(bundle.poll_link(), Ok(Some(LinkStatus::fast_full())));
    assert!(bundle.phy_mut().last_link_up);
    assert_eq!(bundle.poll_link(), Ok(None));
    let (emac_ref, _, _) = bundle.into_parts();
    assert_eq!(emac_ref.duplex(), Duplex::Full);
    assert_eq!(
        emac_ref.registers().mac_config & (GMACCONFIG_FES | GMACCONFIG_DM),
        GMACCONFIG_FES | GMACCONFIG_DM
    );
}

#[test]
fn link_wait_rejects_zero_interval() {
    assert_eq!(link_wait_start(0), Err(Error::Config(ConfigError::InvalidConfig)));
    assert_eq!(link_wait_start(100), Ok(()));
}

#[test]
fn link_wait_steps_until_timeout() {
    let up = LinkStatus::fast_full();
    assert_eq!(link_wait_step(0, 1000, 200, Some(up)), Ok(LinkWait::Up(up)));
    assert_eq!(link_wait_step(5000, 1000, 200, Some(up)), Ok(LinkWait::Up(up)));
    assert_eq!(link_wait_step(0, 1000, 200, None), Ok(LinkWait::Poll(200)));
    assert_eq!(link_wait_step(800, 1000, 200, None), Ok(LinkWait::Poll(1000)));
    assert_eq!(link_wait_step(1000, 1000, 200, None), Err(Error::Io(IoError::Timeout)));
    assert_eq!(link_wait_step(u32::MAX - 1, u32::MAX, 10, None), Ok(LinkWait::Poll(u32::MAX)));
    // A zero timeout still allows the first look.
    assert_eq!(link_wait_step(0, 0, 10, None), Err(Error::Io(IoError::Timeout)));
}

#[test]
fn link_wait_loop_polls_expected_number_of_times() {
    let mut elapsed = 0u32;
    let mut polls = 0u32;
    loop {
        match link_wait_step(elapsed, 1000, 300, None) {
            Ok(LinkWait::Poll(next)) => {
                polls += 1;
                elapsed = next;
            }
            Ok(LinkWait::Up(_)) => unreachable!(),
            Err(e) => {
                assert_eq!(e, Error::Io(IoError::Timeout));
                break;
            }
        }
    }
    assert_eq!(polls, 4);
    assert_eq!(elapsed, 1200);
}

#[test]
fn esp_hal_wrapper_borrows_emac() {
    let mut emac = SmallEmac::new();
    let mut w = EspHalEmac::new(&mut emac);
    w.inner_mut().set_speed(Speed::Mbps10);
    assert_eq!(w.inner().speed(), Speed::Mbps10);
}

#[test]
fn phy_access_command_words() {
    assert_eq!(phy_access_command(1, 2, false), 0x0881);
    assert_eq!(phy_access_command(1, 2, true), 0x0883);
    assert_eq!(phy_access_command(31, 31, false), 0xF800 | 0x07C0 | 1);
}

#[test]
fn tx_process_state_field() {
    assert!(tx_process_stopped(0));
    assert!(tx_process_stopped(0xFF8F_FFFF));
    assert!(!tx_process_stopped(0x0010_0000));
    assert!(!tx_process_stopped(0x0070_0000));
}
