use ph_esp32_mac::config::{Duplex, EmacConfig, Speed, FlowControlConfig, MacAddressFilter, State};
use ph_esp32_mac::emac::Emac;
use ph_esp32_mac::error::{ConfigError, DmaError, Error, IoError};
use ph_esp32_mac::regs::mac::{GMACADDR_AE, GMACCONFIG_RE, GMACCONFIG_TE, GMACFF_VTFE};

type SmallEmac = Emac<4, 4, 64>;

const MAC: [u8; 6] = [0x02, 0x00, 0x00, 0x12, 0x34, 0x56];

fn addrs(base: u32, n: usize, step: u32) -> Vec<u32> {
    (0..n as u32).map(|i| base + i * step).collect()
}

fn initialized() -> SmallEmac {
    let mut emac = SmallEmac::new();
    let config = EmacConfig::new().with_mac_address(MAC);
    emac.prepare_init(config).unwrap();
    let rx = addrs(0x3FFB_0000, 4, 64);
    let tx = addrs(0x3FFB_1000, 4, 64);
    emac.complete_init(0x3FFC_0000, 0x3FFC_1000, &rx, &tx).unwrap();
    emac
}

fn running() -> SmallEmac {
    let mut emac = initialized();
    emac.start().unwrap();
    emac
}

#[test]
fn emac_state_machine_walks_its_states() {
    let mut emac = SmallEmac::new();
    assert_eq!(emac.state(), State::Uninitialized);
    assert_eq!(emac.start(), Err(Error::Io(IoError::InvalidState)));
    assert_eq!(emac.stop(), Err(Error::Io(IoError::InvalidState)));

    emac.prepare_init(EmacConfig::new()).unwrap();
    assert_eq!(emac.state(), State::Uninitialized);
    let rx = addrs(0x3FFB_0000, 4, 64);
    let tx = addrs(0x3FFB_1000, 4, 64);
    emac.complete_init(0x3FFC_0000, 0x3FFC_1000, &rx, &tx).unwrap();
    assert_eq!(emac.state(), State::Initialized);

    assert_eq!(
        emac.prepare_init(EmacConfig::new()),
        Err(Error::Config(ConfigError::AlreadyInitialized))
    );
    assert_eq!(
        emac.complete_init(0x3FFC_0000, 0x3FFC_1000, &rx, &tx),
        Err(Error::Config(ConfigError::AlreadyInitialized))
    );

    assert_eq!(emac.start(), Ok(()));
    assert_eq!(emac.state(), State::Running);
    assert_eq!(emac.start(), Ok(()));
    assert_eq!(emac.state(), State::Running);

    assert_eq!(emac.stop(), Ok(()));
    assert_eq!(emac.state(), State::Stopped);
    assert_eq!(emac.stop(), Err(Error::Io(IoError::InvalidState)));

    assert_eq!(emac.start(), Ok(()));
    assert_eq!(emac.state(), State::Running);
}

#[test]
fn emac_start_and_stop_switch_transmitter_and_receiver() {
    let mut emac = initialized();
    let te_re = GMACCONFIG_TE | GMACCONFIG_RE;
    assert_eq!(emac.registers().mac_config & te_re, 0);
    emac.start().unwrap();
    assert_eq!(emac.registers().mac_config & te_re, te_re);
    assert_ne!(emac.registers().dma_interrupt_enable, 0);
    emac.stop().unwrap();
    assert_eq!(emac.registers().mac_config & te_re, 0);
    assert_eq!(emac.registers().dma_interrupt_enable, 0);
}

#[test]
fn emac_station_address_is_programmed() {
    let emac = initialized();
    assert_eq!(emac.mac_address(), &MAC);
    assert_eq!(emac.registers().addr_high[0], GMACADDR_AE | 0x5634);
    assert_eq!(emac.registers().addr_low[0], 0x1200_0002);
}

#[test]
fn emac_set_mac_address_reprograms_slot_zero() {
    let mut emac = initialized();
    let addr = [0xAA, 0xBB, 0xCC, 0xDD, 0xEE, 0xFF];
    emac.set_mac_address(&addr);
    assert_eq!(emac.mac_address(), &addr);
    assert_eq!(emac.registers().addr_high[0] & 0xFFFF, 0xFFEE);
    assert_eq!(emac.registers().addr_low[0], 0xDDCC_BBAA);
}

#[test]
fn emac_transmit_needs_running_driver() {
    let mut emac = initialized();
    assert_eq!(emac.transmit(&[1, 2, 3]), Err(Error::Io(IoError::InvalidState)));
}

#[test]
fn emac_transmit_splits_frame_over_buffers() {
    let mut emac = running();
    assert_eq!(emac.tx_descriptors_available(), 4);
    let frame: Vec<u8> = (0..100u32).map(|i| (i * 7) as u8).collect();
    assert_eq!(emac.transmit(&frame), Ok(100));
    assert_eq!(emac.tx_descriptors_available(), 2);
    // The frame reads back from the buffers, in ring order from the cursor.
    let dma = emac.dma();
    assert_eq!(&dma.tx_buffer(0)[..64], &frame[..64]);
    assert_eq!(&dma.tx_buffer(1)[..36], &frame[64..]);
    assert!(dma.tx_descriptor(0).is_owned());
    assert!(dma.tx_descriptor(1).is_owned());
    assert!(!dma.tx_descriptor(2).is_owned());
    assert_eq!(dma.tx_descriptor(0).raw_tdes1() & 0x1FFF, 64);
    assert_eq!(dma.tx_descriptor(1).raw_tdes1() & 0x1FFF, 36);
    assert_eq!(dma.tx_current_index(), 2);
}

#[test]
fn emac_receive_copy_fits_when_nothing_received() {
    let emac = running();
    assert!(emac.rx_frame_fits(0));
    assert!(emac.rx_frame_fits(1600));
    assert!(emac.dma().rx_descriptor(0).is_owned());
}

#[test]
fn emac_transmit_rejects_bad_lengths() {
    let mut emac = running();
    assert_eq!(emac.transmit(&[]), Err(Error::Dma(DmaError::InvalidLength)));
    let huge = vec![0u8; 4 * 64 + 1];
    assert_eq!(emac.transmit(&huge), Err(Error::Dma(DmaError::FrameTooLarge)));
    let full = vec![0u8; 4 * 64];
    assert_eq!(emac.transmit(&full), Ok(256));
    assert_eq!(emac.transmit(&[1]), Err(Error::Dma(DmaError::NoDescriptorsAvailable)));
}

#[test]
fn emac_receive_without_frame_reports_incomplete() {
    let mut emac = running();
    assert!(!emac.rx_available());
    assert_eq!(emac.peek_rx_length(), None);
    assert_eq!(emac.rx_frames_waiting(), 0);
    let mut buf = [0u8; 64];
    assert_eq!(emac.receive(&mut buf), Err(Error::Io(IoError::IncompleteFrame)));
}

#[test]
fn emac_mac_filters_fill_and_free_slots() {
    let mut emac = initialized();
    let a = [0x01, 0x00, 0x5E, 0x00, 0x00, 0x01];
    assert_eq!(emac.mac_filter_count(), 0);
    assert_eq!(emac.add_mac_filter(&a), Ok(1));
    assert_eq!(
        emac.add_mac_filter(&a),
        Err(Error::Config(ConfigError::AlreadyInitialized))
    );
    assert_eq!(emac.mac_filter_count(), 1);
    for (i, last) in [2u8, 3, 4].iter().enumerate() {
        assert_eq!(emac.add_mac_filter(&[0x01, 0, 0x5E, 0, 0, *last]), Ok(i + 2));
    }
    assert!(!emac.has_free_mac_filter_slot());
    assert_eq!(
        emac.add_mac_filter(&[0x01, 0, 0x5E, 0, 0, 9]),
        Err(Error::Dma(DmaError::NoDescriptorsAvailable))
    );
    assert_eq!(emac.remove_mac_filter(&a), Ok(()));
    assert_eq!(emac.mac_filter_count(), 3);
    assert_eq!(emac.remove_mac_filter(&a), Err(Error::Dma(DmaError::InvalidLength)));
    assert!(emac.has_free_mac_filter_slot());
    assert_eq!(emac.add_mac_filter(&a), Ok(1));
    emac.clear_mac_filters();
    assert_eq!(emac.mac_filter_count(), 0);
    assert_eq!(emac.registers().addr_low[0], 0x1200_0002);
}

#[test]
fn emac_source_filter_with_mask_sets_flags() {
    let mut emac = initialized();
    let mut f = MacAddressFilter::source([0x10, 0x20, 0x30, 0x40, 0x50, 0x60]);
    f.byte_mask = 0x03;
    assert_eq!(emac.add_mac_filter_config(&f), Ok(1));
    let hi = emac.registers().addr_high[1];
    assert_eq!(hi, 0x8000_0000 | 0x4000_0000 | (0x03 << 24) | 0x6050);
    assert_eq!(emac.registers().addr_low[1], 0x4030_2010);
    let g = MacAddressFilter::with_mask([0x0A, 0x0B, 0x0C, 0x0D, 0x0E, 0x0F], 0x3F);
    assert_eq!(emac.add_mac_filter_config(&g), Ok(2));
    assert_eq!(emac.registers().addr_high[2], 0x8000_0000 | (0x3F << 24) | 0x0F0E);
}

#[test]
fn emac_hash_index_of_known_addresses() {
    assert_eq!(SmallEmac::compute_hash_index(&[0x01, 0x00, 0x5E, 0x00, 0x00, 0x01]), 32);
    assert_eq!(SmallEmac::compute_hash_index(&[0x33, 0x33, 0x00, 0x00, 0x00, 0x01]), 1);
    assert_eq!(SmallEmac::compute_hash_index(&[0xFF; 6]), 0);
    assert_eq!(SmallEmac::compute_hash_index(&[0x01, 0x80, 0xC2, 0x00, 0x00, 0x01]), 60);
}

#[test]
fn emac_hash_filter_add_check_remove() {
    let mut emac = initialized();
    let a = [0x01, 0x00, 0x5E, 0x00, 0x00, 0x01];
    let b = [0x33, 0x33, 0x00, 0x00, 0x00, 0x01];
    assert!(!emac.check_hash_filter(&a));
    assert_eq!(emac.add_hash_filter(&a), 32);
    assert!(emac.check_hash_filter(&a));
    assert!(!emac.check_hash_filter(&b));
    assert_eq!(emac.hash_table(), 1u64 << 32);
    assert_eq!(emac.add_hash_filter(&b), 1);
    assert_eq!(emac.remove_hash_filter(&a), 32);
    assert!(!emac.check_hash_filter(&a));
    assert!(emac.check_hash_filter(&b));
    emac.clear_hash_table();
    assert_eq!(emac.hash_table(), 0);
    emac.set_hash_table(u64::MAX);
    assert!(emac.check_hash_filter(&a));
}

#[test]
fn emac_vlan_filter_programs_tag_register() {
    let mut emac = initialized();
    assert!(!emac.is_vlan_filter_enabled());
    emac.set_vlan_filter(100);
    assert!(emac.is_vlan_filter_enabled());
    assert_eq!(emac.vlan_filter_id(), 100);
    assert_eq!(emac.registers().frame_filter & GMACFF_VTFE, GMACFF_VTFE);
    emac.configure_vlan_filter(0x1234, false, true, true);
    assert_eq!(emac.vlan_filter_id(), 0x234);
    emac.disable_vlan_filter();
    assert!(!emac.is_vlan_filter_enabled());
}

#[test]
fn emac_flow_control_needs_config_and_partner() {
    let mut emac = running();
    assert!(!emac.check_flow_control());
    assert!(!emac.is_flow_control_active());
    emac.enable_flow_control(true);
    assert_eq!(emac.registers().flow_control, 0);
    emac.set_peer_pause_ability(true);
    assert!(emac.peer_pause_ability());
    assert_ne!(emac.registers().flow_control, 0);
    // All RX descriptors belong to the DMA and nothing waits: no PAUSE.
    assert!(!emac.check_flow_control());
    assert!(!emac.is_flow_control_active());
    emac.set_peer_pause_ability(false);
    assert_eq!(emac.registers().flow_control, 0);
}

#[test]
fn emac_flow_control_config_round_trip() {
    let emac = SmallEmac::new();
    assert_eq!(emac.flow_control_config(), &FlowControlConfig::default());
}

#[test]
fn emac_memory_usage_counts_buffers() {
    let small = SmallEmac::memory_usage();
    let large = Emac::<10, 10, 1600>::memory_usage();
    assert!(small >= 8 * 64);
    assert!(large >= 20 * 1600);
    assert!(large > small);
}

#[test]
fn emac_link_settings_follow_setters() {
    let mut emac = initialized();
    emac.update_link(Speed::Mbps10, Duplex::Half);
    assert_eq!(emac.speed(), Speed::Mbps10);
    assert_eq!(emac.duplex(), Duplex::Half);
    emac.set_speed(Speed::Mbps100);
    emac.set_duplex(Duplex::Full);
    assert_eq!(emac.speed(), Speed::Mbps100);
    assert_eq!(emac.duplex(), Duplex::Full);
}

#[test]
fn emac_new_has_free_tx_ring_and_no_frames() {
    let e: Emac<10, 10, 1600> = Emac::new();
    assert_eq!(e.state(), State::Uninitialized);
    assert_eq!(*e.mac_address(), [0u8; 6]);
    assert_eq!(e.speed(), Speed::Mbps100);
    assert_eq!(e.duplex(), Duplex::Full);
    assert_eq!(e.tx_descriptors_available(), 10);
    assert_eq!(e.rx_frames_waiting(), 0);
    assert_eq!(e.dma().tx_ctrl_flags(), 0);
}
