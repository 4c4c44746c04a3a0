use std::collections::HashMap;

use ph_esp32_mac::config::{Duplex, Speed};
use ph_esp32_mac::error::Result;
use ph_esp32_mac::mdio::{anar, bmcr, bmsr, phy_reg, MdioBus};
use ph_esp32_mac::phy::generic::{LinkStatus, PhyCapabilities, PhyDriver};
use ph_esp32_mac::phy::lan8720a::{
    isr, mcsr, pscsr, reg, scan_bus, wait_for_link, Lan8720a, LAN8720A_PHY_ID,
    LAN8720A_PHY_ID_MASK,
};

/// MDIO bus test double: a register file per PHY address and a log of the
/// writes. Writing BMCR.RESET completes the reset at once.
struct MockMdioBus {
    registers: HashMap<(u8, u8), u16>,
    writes: Vec<(u8, u8, u16)>,
}

#[allow(dead_code)]
impl MockMdioBus {
    fn new() -> Self {
        Self { registers: HashMap::new(), writes: Vec::new() }
    }

    /// A LAN8720A (revision 1) at `addr`, link down, every 10/100 mode and
    /// auto-negotiation supported.
    fn setup_lan8720a(&mut self, addr: u8) {
        self.set_register(addr, phy_reg::PHYIDR1, 0x0007);
        self.set_register(addr, phy_reg::PHYIDR2, 0xC0F1);
        self.set_register(addr, phy_reg::BMSR, 0x7809);
        self.set_register(addr, phy_reg::BMCR, 0x3100);
        self.set_register(addr, phy_reg::ANAR, 0x01E1);
        self.set_register(addr, reg::MCSR, 0x0002);
        self.set_register(addr, reg::PSCSR, 0x0040);
    }

    fn set_register(&mut self, addr: u8, reg_addr: u8, value: u16) {
        self.registers.insert((addr, reg_addr), value);
    }

    fn get_register(&self, addr: u8, reg_addr: u8) -> Option<u16> {
        self.registers.get(&(addr, reg_addr)).copied()
    }

    fn get_writes(&self) -> Vec<(u8, u8, u16)> {
        self.writes.clone()
    }

    /// Link up at 100 Mbps full duplex after auto-negotiation.
    fn simulate_link_up_100_fd(&mut self, addr: u8) {
        let b = self.get_register(addr, phy_reg::BMSR).unwrap_or(0);
        self.set_register(addr, phy_reg::BMSR, b | bmsr::LINK_STATUS | bmsr::AN_COMPLETE);
        self.set_register(addr, phy_reg::ANLPAR, 0x05E1);
    }

    /// Link down.
    fn simulate_link_down(&mut self, addr: u8) {
        let b = self.get_register(addr, phy_reg::BMSR).unwrap_or(0);
        self.set_register(addr, phy_reg::BMSR, b & !bmsr::LINK_STATUS);
    }
}

impl MdioBus for MockMdioBus {
    fn read(&mut self, phy_addr: u8, reg_addr: u8) -> Result<u16> {
        Ok(self.get_register(phy_addr, reg_addr).unwrap_or(0))
    }

    fn write(&mut self, phy_addr: u8, reg_addr: u8, value: u16) -> Result<()> {
        self.writes.push((phy_addr, reg_addr, value));
        let stored = if reg_addr == phy_reg::BMCR { value & !bmcr::RESET } else { value };
        self.set_register(phy_addr, reg_addr, stored);
        Ok(())
    }

    fn is_busy(&self) -> bool {
        false
    }
}

#[test]
fn test_phy_id_check() {
    // LAN8720A ID should match
    assert!((0x0007_C0F0 & LAN8720A_PHY_ID_MASK) == LAN8720A_PHY_ID);
    assert!((0x0007_C0F1 & LAN8720A_PHY_ID_MASK) == LAN8720A_PHY_ID); // Different revision
    assert!((0x0007_C0FF & LAN8720A_PHY_ID_MASK) == LAN8720A_PHY_ID);

    // Other PHYs should not match
    assert!((0x0022_1555 & LAN8720A_PHY_ID_MASK) != LAN8720A_PHY_ID); // IP101
    assert!(LAN8720A_PHY_ID_MASK != LAN8720A_PHY_ID); // All 1s
    assert!((0x0001_0000 & LAN8720A_PHY_ID_MASK) != LAN8720A_PHY_ID); // Different OUI
}

#[test]
fn test_speed_indication() {
    // Test HCDSPEED bit patterns
    assert_eq!(pscsr::HCDSPEED_10HD, 0x04);
    assert_eq!(pscsr::HCDSPEED_10FD, 0x14);
    assert_eq!(pscsr::HCDSPEED_100HD, 0x08);
    assert_eq!(pscsr::HCDSPEED_100FD, 0x18);
}

#[test]
fn test_init_performs_soft_reset() {
    let mut mdio = MockMdioBus::new();
    mdio.setup_lan8720a(0);
    // Reset bit self-clears immediately
    mdio.set_register(0, phy_reg::BMCR, 0x0000);

    let mut phy = Lan8720a::new(0);
    phy.init(&mut mdio).unwrap();

    // Check that BMCR.RESET was written
    let writes = mdio.get_writes();
    let reset_writes: Vec<_> = writes
        .iter()
        .filter(|(addr, reg, val)| {
            *addr == 0 && *reg == phy_reg::BMCR && (*val & bmcr::RESET) != 0
        })
        .collect();
    assert!(!reset_writes.is_empty(), "Expected BMCR.RESET write");
}

#[test]
fn test_init_disables_energy_detect_powerdown() {
    let mut mdio = MockMdioBus::new();
    mdio.setup_lan8720a(0);
    mdio.set_register(0, reg::MCSR, mcsr::EDPWRDOWN); // Start with EDPWRDOWN enabled

    let mut phy = Lan8720a::new(0);
    phy.init(&mut mdio).unwrap();

    // EDPWRDOWN should be cleared
    let mcsr_val = mdio.get_register(0, reg::MCSR).unwrap();
    assert_eq!(
        mcsr_val & mcsr::EDPWRDOWN,
        0,
        "EDPWRDOWN should be disabled"
    );
}

#[test]
fn test_init_enables_auto_negotiation() {
    let mut mdio = MockMdioBus::new();
    mdio.setup_lan8720a(0);

    let mut phy = Lan8720a::new(0);
    phy.init(&mut mdio).unwrap();

    // Check BMCR has AN_ENABLE set
    let bmcr_val = mdio.get_register(0, phy_reg::BMCR).unwrap();
    assert!(bmcr_val & bmcr::AN_ENABLE != 0, "AN_ENABLE should be set");
}

#[test]
fn test_init_resets_link_state() {
    let mut mdio = MockMdioBus::new();
    mdio.setup_lan8720a(0);
    mdio.simulate_link_up_100_fd(0);

    let mut phy = Lan8720a::new(0);
    // Manually set internal state as if link was up
    phy.last_link_up = true;

    phy.init(&mut mdio).unwrap();

    // After init, internal state should be reset
    assert!(!phy.last_link_up, "last_link_up should be reset after init");
}

#[test]
fn test_soft_reset_writes_reset_bit() {
    let mut mdio = MockMdioBus::new();
    mdio.setup_lan8720a(0);
    // Simulate reset completing immediately
    mdio.set_register(0, phy_reg::BMCR, 0x0000);

    let mut phy = Lan8720a::new(0);
    phy.soft_reset(&mut mdio).unwrap();

    let writes = mdio.get_writes();
    let first_write = writes.first().unwrap();
    assert_eq!(first_write.0, 0);
    assert_eq!(first_write.1, phy_reg::BMCR);
    assert!(first_write.2 & bmcr::RESET != 0, "Should write RESET bit");
}

#[test]
fn test_soft_reset_waits_for_reset_clear() {
    let mut mdio = MockMdioBus::new();
    mdio.setup_lan8720a(0);
    // Reset bit stays set (simulates slow reset)
    mdio.set_register(0, phy_reg::BMCR, bmcr::RESET);

    let mut phy = Lan8720a::new(0);
    // This should poll multiple times and eventually return
    // (implementation doesn't fail even if reset doesn't clear)
    phy.soft_reset(&mut mdio).unwrap();
}

#[test]
fn test_is_link_up_when_link_down() {
    let mut mdio = MockMdioBus::new();
    mdio.setup_lan8720a(0);
    // Link is down by default

    let phy = Lan8720a::new(0);
    assert!(!phy.is_link_up(&mut mdio).unwrap());
}

#[test]
fn test_is_link_up_when_link_up() {
    let mut mdio = MockMdioBus::new();
    mdio.setup_lan8720a(0);
    mdio.simulate_link_up_100_fd(0);

    let phy = Lan8720a::new(0);
    assert!(phy.is_link_up(&mut mdio).unwrap());
}

#[test]
fn test_link_status_returns_none_when_down() {
    let mut mdio = MockMdioBus::new();
    mdio.setup_lan8720a(0);

    let phy = Lan8720a::new(0);
    assert!(phy.link_status(&mut mdio).unwrap().is_none());
}

#[test]
fn test_link_status_returns_speed_duplex_when_up() {
    let mut mdio = MockMdioBus::new();
    mdio.setup_lan8720a(0);
    mdio.simulate_link_up_100_fd(0);
    // Set PSCSR for speed indication
    mdio.set_register(0, reg::PSCSR, pscsr::AUTODONE | pscsr::HCDSPEED_100FD);

    let phy = Lan8720a::new(0);
    let status = phy.link_status(&mut mdio).unwrap().unwrap();
    assert_eq!(status.speed, Speed::Mbps100);
    assert_eq!(status.duplex, Duplex::Full);
}

#[test]
fn test_poll_link_returns_none_when_link_stays_down() {
    let mut mdio = MockMdioBus::new();
    mdio.setup_lan8720a(0);

    let mut phy = Lan8720a::new(0);
    assert!(phy.poll_link(&mut mdio).unwrap().is_none());
    assert!(phy.poll_link(&mut mdio).unwrap().is_none());
}

#[test]
fn test_poll_link_returns_status_on_link_up_transition() {
    let mut mdio = MockMdioBus::new();
    mdio.setup_lan8720a(0);
    // Set PSCSR for speed indication
    mdio.set_register(0, reg::PSCSR, pscsr::AUTODONE | pscsr::HCDSPEED_100FD);

    let mut phy = Lan8720a::new(0);

    // First poll: link down
    assert!(phy.poll_link(&mut mdio).unwrap().is_none());

    // Link comes up
    mdio.simulate_link_up_100_fd(0);

    // Second poll: should return status (transition detected)
    let status = phy.poll_link(&mut mdio).unwrap();
    assert!(status.is_some());
    let link = status.unwrap();
    assert_eq!(link.speed, Speed::Mbps100);
    assert_eq!(link.duplex, Duplex::Full);
}

#[test]
fn test_poll_link_returns_none_when_link_stays_up() {
    let mut mdio = MockMdioBus::new();
    mdio.setup_lan8720a(0);
    mdio.simulate_link_up_100_fd(0);
    mdio.set_register(0, reg::PSCSR, pscsr::AUTODONE | pscsr::HCDSPEED_100FD);

    let mut phy = Lan8720a::new(0);

    // First poll: link up (transition from unknown)
    let first = phy.poll_link(&mut mdio).unwrap();
    assert!(first.is_some());

    // Second poll: link still up (no transition)
    let second = phy.poll_link(&mut mdio).unwrap();
    assert!(second.is_none());
}

#[test]
fn test_poll_link_tracks_link_down_transition() {
    let mut mdio = MockMdioBus::new();
    mdio.setup_lan8720a(0);
    mdio.simulate_link_up_100_fd(0);
    mdio.set_register(0, reg::PSCSR, pscsr::AUTODONE | pscsr::HCDSPEED_100FD);

    let mut phy = Lan8720a::new(0);

    // First poll: link up
    let _ = phy.poll_link(&mut mdio).unwrap();

    // Link goes down
    mdio.simulate_link_down(0);

    // Poll detects link down (returns None, but updates internal state)
    assert!(phy.poll_link(&mut mdio).unwrap().is_none());
    assert!(!phy.last_link_up);
}

#[test]
fn test_poll_link_detects_link_flap() {
    let mut mdio = MockMdioBus::new();
    mdio.setup_lan8720a(0);
    mdio.set_register(0, reg::PSCSR, pscsr::AUTODONE | pscsr::HCDSPEED_100FD);

    let mut phy = Lan8720a::new(0);

    // Link up
    mdio.simulate_link_up_100_fd(0);
    assert!(phy.poll_link(&mut mdio).unwrap().is_some());

    // Link down
    mdio.simulate_link_down(0);
    assert!(phy.poll_link(&mut mdio).unwrap().is_none());

    // Link up again - should detect transition
    mdio.simulate_link_up_100_fd(0);
    assert!(phy.poll_link(&mut mdio).unwrap().is_some());
}

#[test]
fn test_enable_auto_negotiation_writes_anar() {
    let mut mdio = MockMdioBus::new();
    mdio.setup_lan8720a(0);

    let mut phy = Lan8720a::new(0);
    phy.enable_auto_negotiation(&mut mdio).unwrap();

    // Check ANAR was written
    let writes = mdio.get_writes();
    let anar_writes: Vec<_> = writes
        .iter()
        .filter(|(_, reg, _)| *reg == phy_reg::ANAR)
        .collect();
    assert!(!anar_writes.is_empty(), "Expected ANAR write");
}

#[test]
fn test_enable_auto_negotiation_restarts_an() {
    let mut mdio = MockMdioBus::new();
    mdio.setup_lan8720a(0);

    let mut phy = Lan8720a::new(0);
    phy.enable_auto_negotiation(&mut mdio).unwrap();

    // Check BMCR has AN_ENABLE and AN_RESTART
    let bmcr_val = mdio.get_register(0, phy_reg::BMCR).unwrap();
    assert!(bmcr_val & bmcr::AN_ENABLE != 0, "AN_ENABLE should be set");
    assert!(bmcr_val & bmcr::AN_RESTART != 0, "AN_RESTART should be set");
}

#[test]
fn test_is_auto_negotiation_complete_when_not_done() {
    let mut mdio = MockMdioBus::new();
    mdio.setup_lan8720a(0);
    // AN not complete (link down)

    let phy = Lan8720a::new(0);
    assert!(!phy.is_auto_negotiation_complete(&mut mdio).unwrap());
}

#[test]
fn test_is_auto_negotiation_complete_when_done() {
    let mut mdio = MockMdioBus::new();
    mdio.setup_lan8720a(0);
    mdio.simulate_link_up_100_fd(0);

    let phy = Lan8720a::new(0);
    assert!(phy.is_auto_negotiation_complete(&mut mdio).unwrap());
}

#[test]
fn test_force_link_disables_auto_negotiation() {
    let mut mdio = MockMdioBus::new();
    mdio.setup_lan8720a(0);
    // Start with AN enabled
    mdio.set_register(0, phy_reg::BMCR, bmcr::AN_ENABLE);

    let mut phy = Lan8720a::new(0);
    phy.force_link(&mut mdio, LinkStatus::fast_full()).unwrap();

    let bmcr_val = mdio.get_register(0, phy_reg::BMCR).unwrap();
    assert_eq!(bmcr_val & bmcr::AN_ENABLE, 0, "AN should be disabled");
}

#[test]
fn test_force_link_100_full() {
    let mut mdio = MockMdioBus::new();
    mdio.setup_lan8720a(0);

    let mut phy = Lan8720a::new(0);
    phy.force_link(&mut mdio, LinkStatus::fast_full()).unwrap();

    let bmcr_val = mdio.get_register(0, phy_reg::BMCR).unwrap();
    assert!(bmcr_val & bmcr::SPEED_100 != 0, "SPEED_100 should be set");
    assert!(
        bmcr_val & bmcr::DUPLEX_FULL != 0,
        "DUPLEX_FULL should be set"
    );
}

#[test]
fn test_force_link_10_half() {
    let mut mdio = MockMdioBus::new();
    mdio.setup_lan8720a(0);

    let mut phy = Lan8720a::new(0);
    phy.force_link(&mut mdio, LinkStatus::slow_half()).unwrap();

    let bmcr_val = mdio.get_register(0, phy_reg::BMCR).unwrap();
    assert_eq!(bmcr_val & bmcr::SPEED_100, 0, "SPEED_100 should be clear");
    assert_eq!(
        bmcr_val & bmcr::DUPLEX_FULL,
        0,
        "DUPLEX_FULL should be clear"
    );
}

#[test]
fn test_force_link_100_half() {
    let mut mdio = MockMdioBus::new();
    mdio.setup_lan8720a(0);

    let mut phy = Lan8720a::new(0);
    phy.force_link(&mut mdio, LinkStatus::fast_half()).unwrap();

    let bmcr_val = mdio.get_register(0, phy_reg::BMCR).unwrap();
    assert!(bmcr_val & bmcr::SPEED_100 != 0, "SPEED_100 should be set");
    assert_eq!(
        bmcr_val & bmcr::DUPLEX_FULL,
        0,
        "DUPLEX_FULL should be clear"
    );
}

#[test]
fn test_force_link_10_full() {
    let mut mdio = MockMdioBus::new();
    mdio.setup_lan8720a(0);

    let mut phy = Lan8720a::new(0);
    phy.force_link(&mut mdio, LinkStatus::slow_full()).unwrap();

    let bmcr_val = mdio.get_register(0, phy_reg::BMCR).unwrap();
    assert_eq!(bmcr_val & bmcr::SPEED_100, 0, "SPEED_100 should be clear");
    assert!(
        bmcr_val & bmcr::DUPLEX_FULL != 0,
        "DUPLEX_FULL should be set"
    );
}

#[test]
fn test_read_speed_indication_when_an_not_done() {
    let mut mdio = MockMdioBus::new();
    mdio.setup_lan8720a(0);
    // AUTODONE bit not set
    mdio.set_register(0, reg::PSCSR, 0x0000);

    let phy = Lan8720a::new(0);
    assert!(phy.read_speed_indication(&mut mdio).unwrap().is_none());
}

#[test]
fn test_read_speed_indication_100fd() {
    let mut mdio = MockMdioBus::new();
    mdio.setup_lan8720a(0);
    mdio.set_register(0, reg::PSCSR, pscsr::AUTODONE | pscsr::HCDSPEED_100FD);

    let phy = Lan8720a::new(0);
    let status = phy.read_speed_indication(&mut mdio).unwrap().unwrap();
    assert_eq!(status.speed, Speed::Mbps100);
    assert_eq!(status.duplex, Duplex::Full);
}

#[test]
fn test_read_speed_indication_100hd() {
    let mut mdio = MockMdioBus::new();
    mdio.setup_lan8720a(0);
    mdio.set_register(0, reg::PSCSR, pscsr::AUTODONE | pscsr::HCDSPEED_100HD);

    let phy = Lan8720a::new(0);
    let status = phy.read_speed_indication(&mut mdio).unwrap().unwrap();
    assert_eq!(status.speed, Speed::Mbps100);
    assert_eq!(status.duplex, Duplex::Half);
}

#[test]
fn test_read_speed_indication_10fd() {
    let mut mdio = MockMdioBus::new();
    mdio.setup_lan8720a(0);
    mdio.set_register(0, reg::PSCSR, pscsr::AUTODONE | pscsr::HCDSPEED_10FD);

    let phy = Lan8720a::new(0);
    let status = phy.read_speed_indication(&mut mdio).unwrap().unwrap();
    assert_eq!(status.speed, Speed::Mbps10);
    assert_eq!(status.duplex, Duplex::Full);
}

#[test]
fn test_read_speed_indication_10hd() {
    let mut mdio = MockMdioBus::new();
    mdio.setup_lan8720a(0);
    mdio.set_register(0, reg::PSCSR, pscsr::AUTODONE | pscsr::HCDSPEED_10HD);

    let phy = Lan8720a::new(0);
    let status = phy.read_speed_indication(&mut mdio).unwrap().unwrap();
    assert_eq!(status.speed, Speed::Mbps10);
    assert_eq!(status.duplex, Duplex::Half);
}

#[test]
fn test_verify_id_returns_true_for_lan8720a() {
    let mut mdio = MockMdioBus::new();
    mdio.setup_lan8720a(0);

    let phy = Lan8720a::new(0);
    assert!(phy.verify_id(&mut mdio).unwrap());
}

#[test]
fn test_verify_id_returns_false_for_other_phy() {
    let mut mdio = MockMdioBus::new();
    // Set up a different PHY ID (IP101)
    mdio.set_register(0, phy_reg::PHYIDR1, 0x0022);
    mdio.set_register(0, phy_reg::PHYIDR2, 0x1555);

    let phy = Lan8720a::new(0);
    assert!(!phy.verify_id(&mut mdio).unwrap());
}

#[test]
fn test_phy_id_reads_both_registers() {
    let mut mdio = MockMdioBus::new();
    mdio.setup_lan8720a(0);

    let phy = Lan8720a::new(0);
    let id = phy.phy_id(&mut mdio).unwrap();

    // Should be 0x0007_C0F1 (from setup_lan8720a)
    assert_eq!(id >> 16, 0x0007);
    assert_eq!(id & 0xFFFF, 0xC0F1);
}

#[test]
fn test_revision_extracts_low_bits() {
    let mut mdio = MockMdioBus::new();
    mdio.setup_lan8720a(0);

    let phy = Lan8720a::new(0);
    let rev = phy.revision(&mut mdio).unwrap();

    // PHYIDR2 = 0xC0F1, revision = 0x1
    assert_eq!(rev, 1);
}

#[test]
fn test_capabilities_reads_from_bmsr() {
    let mut mdio = MockMdioBus::new();
    mdio.setup_lan8720a(0);

    let phy = Lan8720a::new(0);
    let caps = phy.capabilities(&mut mdio).unwrap();

    assert!(caps.speed_100_fd);
    assert!(caps.speed_100_hd);
    assert!(caps.speed_10_fd);
    assert!(caps.speed_10_hd);
    assert!(caps.auto_negotiation);
}

#[test]
fn test_link_partner_abilities_after_an() {
    let mut mdio = MockMdioBus::new();
    mdio.setup_lan8720a(0);
    mdio.simulate_link_up_100_fd(0);

    let phy = Lan8720a::new(0);
    let partner = phy.link_partner_abilities(&mut mdio).unwrap();

    assert!(partner.speed_100_fd);
    assert!(partner.speed_100_hd);
    assert!(partner.speed_10_fd);
    assert!(partner.speed_10_hd);
}

#[test]
fn test_energy_detect_powerdown_enable() {
    let mut mdio = MockMdioBus::new();
    mdio.setup_lan8720a(0);
    mdio.set_register(0, reg::MCSR, 0x0000);

    let mut phy = Lan8720a::new(0);
    phy.set_energy_detect_powerdown(&mut mdio, true).unwrap();

    let mcsr = mdio.get_register(0, reg::MCSR).unwrap();
    assert!(mcsr & mcsr::EDPWRDOWN != 0);
}

#[test]
fn test_energy_detect_powerdown_disable() {
    let mut mdio = MockMdioBus::new();
    mdio.setup_lan8720a(0);
    mdio.set_register(0, reg::MCSR, mcsr::EDPWRDOWN);

    let mut phy = Lan8720a::new(0);
    phy.set_energy_detect_powerdown(&mut mdio, false).unwrap();

    let mcsr = mdio.get_register(0, reg::MCSR).unwrap();
    assert_eq!(mcsr & mcsr::EDPWRDOWN, 0);
}

#[test]
fn test_is_energy_on() {
    let mut mdio = MockMdioBus::new();
    mdio.setup_lan8720a(0);

    // No energy
    mdio.set_register(0, reg::MCSR, 0x0000);
    let phy = Lan8720a::new(0);
    assert!(!phy.is_energy_on(&mut mdio).unwrap());

    // Energy detected
    mdio.set_register(0, reg::MCSR, mcsr::ENERGYON);
    assert!(phy.is_energy_on(&mut mdio).unwrap());
}

#[test]
fn test_interrupt_mask() {
    let mut mdio = MockMdioBus::new();
    mdio.setup_lan8720a(0);
    mdio.set_register(0, reg::IMR, 0x0000);

    let mut phy = Lan8720a::new(0);
    phy.set_interrupt_mask(&mut mdio, isr::LINK_DOWN | isr::AN_COMPLETE)
        .unwrap();

    let imr = mdio.get_register(0, reg::IMR).unwrap();
    assert!(imr & isr::LINK_DOWN != 0);
    assert!(imr & isr::AN_COMPLETE != 0);
}

#[test]
fn test_enable_link_interrupt() {
    let mut mdio = MockMdioBus::new();
    mdio.setup_lan8720a(0);
    mdio.set_register(0, reg::IMR, 0x0000);

    let mut phy = Lan8720a::new(0);
    phy.enable_link_interrupt(&mut mdio).unwrap();

    let imr = mdio.get_register(0, reg::IMR).unwrap();
    assert!(imr & isr::LINK_DOWN != 0);
    assert!(imr & isr::AN_COMPLETE != 0);
}

#[test]
fn test_symbol_error_count() {
    let mut mdio = MockMdioBus::new();
    mdio.setup_lan8720a(0);
    mdio.set_register(0, reg::SECR, 42);

    let phy = Lan8720a::new(0);
    assert_eq!(phy.symbol_error_count(&mut mdio).unwrap(), 42);
}

#[test]
fn test_configure_advertisement() {
    let mut mdio = MockMdioBus::new();
    mdio.setup_lan8720a(0);

    let mut phy = Lan8720a::new(0);
    let caps = PhyCapabilities {
        speed_100_fd: true,
        speed_100_hd: false,
        speed_10_fd: true,
        speed_10_hd: false,
        auto_negotiation: true,
        pause: true,
        pause_asymmetric: false,
    };
    phy.configure_advertisement(&mut mdio, &caps).unwrap();

    let anar = mdio.get_register(0, phy_reg::ANAR).unwrap();
    assert!(anar & anar::TX_FD != 0, "Should advertise 100FD");
    assert_eq!(anar & anar::TX_HD, 0, "Should not advertise 100HD");
    assert!(anar & anar::T10_FD != 0, "Should advertise 10FD");
    assert_eq!(anar & anar::T10_HD, 0, "Should not advertise 10HD");
    assert!(anar & anar::PAUSE != 0, "Should advertise PAUSE");
}

#[test]
fn test_phy_address() {
    let phy0 = Lan8720a::new(0);
    assert_eq!(phy0.address(), 0);

    let phy1 = Lan8720a::new(1);
    assert_eq!(phy1.address(), 1);

    let phy31 = Lan8720a::new(31);
    assert_eq!(phy31.address(), 31);
}

#[test]
fn test_operations_use_correct_address() {
    let mut mdio = MockMdioBus::new();
    // Setup PHY at address 5
    mdio.set_register(5, phy_reg::PHYIDR1, 0x0007);
    mdio.set_register(5, phy_reg::PHYIDR2, 0xC0F1);
    mdio.set_register(5, phy_reg::BMSR, 0x7809); // Basic capabilities
    mdio.set_register(5, phy_reg::BMCR, 0x0000);

    let phy = Lan8720a::new(5);
    assert!(phy.verify_id(&mut mdio).unwrap());

    // PHY at address 0 should not verify
    let phy0 = Lan8720a::new(0);
    assert!(!phy0.verify_id(&mut mdio).unwrap());
}


#[test]
fn scan_bus_finds_phy_at_its_address() {
    let mut mdio = MockMdioBus::new();
    mdio.setup_lan8720a(1);
    mdio.set_register(5, phy_reg::PHYIDR1, 0x0022);
    mdio.set_register(5, phy_reg::PHYIDR2, 0x1555);
    let found = scan_bus(&mut mdio).unwrap();
    assert_eq!(found[1], Some(1));
    assert_eq!(found[5], None);
    assert_eq!(found.iter().filter(|f| f.is_some()).count(), 1);
}

#[test]
fn wait_for_link_reports_negotiated_link() {
    let mut mdio = MockMdioBus::new();
    mdio.setup_lan8720a(0);
    mdio.simulate_link_up_100_fd(0);
    mdio.set_register(0, reg::PSCSR, pscsr::AUTODONE | pscsr::HCDSPEED_100FD);
    let mut phy = Lan8720a::new(0);
    assert_eq!(wait_for_link(&mut phy, &mut mdio), Ok(Some(LinkStatus::fast_full())));
    assert!(phy.last_link_up);
}

#[test]
fn wait_for_link_gives_up_while_link_is_down() {
    let mut mdio = MockMdioBus::new();
    mdio.setup_lan8720a(0);
    let mut phy = Lan8720a::new(0);
    assert_eq!(wait_for_link(&mut phy, &mut mdio), Ok(None));
    assert!(!phy.last_link_up);
}
