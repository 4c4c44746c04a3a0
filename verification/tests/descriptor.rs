use ph_esp32_mac::descriptor::bits::checksum_mode;
use ph_esp32_mac::descriptor::bits::rdes0::{
    CRC_ERR as RDES0_CRC_ERR, ERR_SUMMARY as RDES0_ERR_SUMMARY, FIRST_DESC as RDES0_FIRST_DESC,
    FRAME_LEN_SHIFT as RDES0_FRAME_LEN_SHIFT, LAST_DESC as RDES0_LAST_DESC,
    OVERFLOW_ERR as RDES0_OVERFLOW_ERR, OWN as RDES0_OWN,
};
use ph_esp32_mac::descriptor::bits::rdes1::BUFFER1_SIZE_MASK as RDES1_BUFFER1_SIZE_MASK;
use ph_esp32_mac::descriptor::bits::tdes0::{
    CHECKSUM_INSERT_MASK as TDES0_CHECKSUM_INSERT_MASK,
    CHECKSUM_INSERT_SHIFT as TDES0_CHECKSUM_INSERT_SHIFT, ERR_SUMMARY as TDES0_ERR_SUMMARY,
    FIRST_SEGMENT as TDES0_FIRST_SEGMENT, INTERRUPT_ON_COMPLETE as TDES0_INTERRUPT_ON_COMPLETE,
    LAST_SEGMENT as TDES0_LAST_SEGMENT, LATE_COLLISION as TDES0_LATE_COLLISION, OWN as TDES0_OWN,
    SECOND_ADDR_CHAINED as TDES0_SECOND_ADDR_CHAINED, UNDERFLOW_ERR as TDES0_UNDERFLOW_ERR,
};
use ph_esp32_mac::descriptor::{RxDescriptor, TxDescriptor};

// ---------------------------------------------------------------------------
// RX descriptor
// ---------------------------------------------------------------------------

#[test]
fn rx_rx_descriptor_size() {
    assert_eq!(core::mem::size_of::<RxDescriptor>(), 32);
}

#[test]
fn rx_rx_descriptor_alignment() {
    assert_eq!(core::mem::align_of::<RxDescriptor>(), 4);
}

#[test]
fn rx_rx_descriptor_const_size() {
    assert_eq!(RxDescriptor::SIZE, core::mem::size_of::<RxDescriptor>());
}

#[test]
fn rx_rx_descriptor_new_not_owned() {
    let desc = RxDescriptor::new();
    assert!(!desc.is_owned(), "New descriptor should not be owned by DMA");
}

#[test]
fn rx_rx_descriptor_set_owned() {
    let mut desc = RxDescriptor::new();
    desc.set_owned();
    assert!(desc.is_owned(), "Descriptor should be owned after set_owned()");
}

#[test]
fn rx_rx_descriptor_clear_owned() {
    let mut desc = RxDescriptor::new();
    desc.set_owned();
    assert!(desc.is_owned());
    desc.clear_owned();
    assert!(!desc.is_owned(), "Descriptor should not be owned after clear_owned()");
}

#[test]
fn rx_rx_descriptor_own_bit_position() {
    let mut desc = RxDescriptor::new();
    desc.set_owned();
    let raw = desc.raw_rdes0();
    assert_eq!(raw & RDES0_OWN, RDES0_OWN, "OWN bit should be bit 31");
    assert_eq!(raw & !RDES0_OWN, 0, "No other bits should be set");
}

#[test]
fn rx_rx_descriptor_first_last_flags() {
    let mut desc = RxDescriptor::new();

    assert!(!desc.is_first());
    assert!(!desc.is_last());

    desc.rdes0 = RDES0_FIRST_DESC;
    assert!(desc.is_first());
    assert!(!desc.is_last());

    desc.rdes0 = RDES0_LAST_DESC;
    assert!(!desc.is_first());
    assert!(desc.is_last());

    desc.rdes0 = RDES0_FIRST_DESC | RDES0_LAST_DESC;
    assert!(desc.is_first());
    assert!(desc.is_last());
    assert!(desc.is_complete_frame());
}

#[test]
fn rx_rx_descriptor_frame_length_extraction() {
    let mut desc = RxDescriptor::new();

    let test_length: u32 = 1500;
    desc.rdes0 = test_length << RDES0_FRAME_LEN_SHIFT;
    assert_eq!(desc.frame_length(), 1500);

    desc.rdes0 = 64 << RDES0_FRAME_LEN_SHIFT;
    assert_eq!(desc.frame_length(), 64);

    desc.rdes0 = 1518 << RDES0_FRAME_LEN_SHIFT;
    assert_eq!(desc.frame_length(), 1518);
}

#[test]
fn rx_rx_descriptor_frame_length_with_other_bits() {
    let mut desc = RxDescriptor::new();

    let length: u32 = 256;
    desc.rdes0 =
        RDES0_OWN | RDES0_FIRST_DESC | RDES0_LAST_DESC | (length << RDES0_FRAME_LEN_SHIFT);

    assert_eq!(desc.frame_length(), 256);
    assert!(desc.is_owned());
    assert!(desc.is_complete_frame());
}

#[test]
fn rx_rx_descriptor_error_detection() {
    let mut desc = RxDescriptor::new();

    assert!(!desc.has_error());

    desc.rdes0 = RDES0_ERR_SUMMARY;
    assert!(desc.has_error());

    desc.rdes0 = 0;
    assert!(!desc.has_error());

    desc.rdes0 = RDES0_ERR_SUMMARY | RDES0_CRC_ERR | RDES0_OVERFLOW_ERR;
    assert!(desc.has_error());

    let errors = desc.error_flags();
    assert!(errors & RDES0_CRC_ERR != 0);
    assert!(errors & RDES0_OVERFLOW_ERR != 0);
}

#[test]
fn rx_rx_descriptor_buffer_size() {
    let mut desc = RxDescriptor::new();

    desc.rdes1 = 1600 & RDES1_BUFFER1_SIZE_MASK;
    assert_eq!(desc.buffer_size(), 1600);

    desc.rdes1 = 512 & RDES1_BUFFER1_SIZE_MASK;
    assert_eq!(desc.buffer_size(), 512);
}

#[test]
fn rx_rx_descriptor_recycle() {
    let mut desc = RxDescriptor::new();

    desc.rdes0 = RDES0_FIRST_DESC | RDES0_LAST_DESC | (100 << RDES0_FRAME_LEN_SHIFT);
    desc.rdes1 = 1600;

    desc.recycle();

    assert!(desc.is_owned());
    assert_eq!(desc.buffer_size(), 1600);
}

// ---------------------------------------------------------------------------
// TX descriptor
// ---------------------------------------------------------------------------

#[test]
fn tx_tx_descriptor_size() {
    assert_eq!(core::mem::size_of::<TxDescriptor>(), 32);
}

#[test]
fn tx_tx_descriptor_alignment() {
    assert_eq!(core::mem::align_of::<TxDescriptor>(), 4);
}

#[test]
fn tx_tx_descriptor_const_size() {
    assert_eq!(TxDescriptor::SIZE, core::mem::size_of::<TxDescriptor>());
}

#[test]
fn tx_tx_descriptor_new_not_owned() {
    let desc = TxDescriptor::new();
    assert!(!desc.is_owned(), "New descriptor should not be owned by DMA");
}

#[test]
fn tx_tx_descriptor_set_owned() {
    let mut desc = TxDescriptor::new();
    desc.set_owned();
    assert!(desc.is_owned(), "Descriptor should be owned after set_owned()");
}

#[test]
fn tx_tx_descriptor_clear_owned() {
    let mut desc = TxDescriptor::new();
    desc.set_owned();
    assert!(desc.is_owned());
    desc.clear_owned();
    assert!(!desc.is_owned(), "Descriptor should not be owned after clear_owned()");
}

#[test]
fn tx_tx_descriptor_own_bit_position() {
    let mut desc = TxDescriptor::new();
    desc.set_owned();
    let raw = desc.raw_tdes0();
    assert_eq!(raw & TDES0_OWN, TDES0_OWN, "OWN bit should be bit 31");
}

#[test]
fn tx_tx_descriptor_prepare_first_segment() {
    let mut desc = TxDescriptor::new();
    desc.prepare(100, true, false);
    let raw = desc.raw_tdes0();
    assert!(raw & TDES0_FIRST_SEGMENT != 0, "First segment flag should be set");
    assert!(raw & TDES0_LAST_SEGMENT == 0, "Last segment flag should not be set");
    assert!(raw & TDES0_OWN == 0, "OWN should not be set by prepare()");
}

#[test]
fn tx_tx_descriptor_prepare_last_segment() {
    let mut desc = TxDescriptor::new();
    desc.prepare(100, false, true);
    let raw = desc.raw_tdes0();
    assert!(raw & TDES0_FIRST_SEGMENT == 0, "First segment flag should not be set");
    assert!(raw & TDES0_LAST_SEGMENT != 0, "Last segment flag should be set");
    assert!(raw & TDES0_INTERRUPT_ON_COMPLETE != 0, "IOC should be set on last segment");
}

#[test]
fn tx_tx_descriptor_prepare_complete_frame() {
    let mut desc = TxDescriptor::new();
    desc.prepare(1500, true, true);
    let raw = desc.raw_tdes0();
    assert!(raw & TDES0_FIRST_SEGMENT != 0);
    assert!(raw & TDES0_LAST_SEGMENT != 0);
    assert!(raw & TDES0_INTERRUPT_ON_COMPLETE != 0);
}

#[test]
fn tx_tx_descriptor_frame_length() {
    let mut desc = TxDescriptor::new();
    desc.prepare(64, true, true);
    let len = desc.raw_tdes1() & 0x1FFF;
    assert_eq!(len, 64);
    desc.prepare(1500, true, true);
    let len = desc.raw_tdes1() & 0x1FFF;
    assert_eq!(len, 1500);
    desc.prepare(1518, true, true);
    let len = desc.raw_tdes1() & 0x1FFF;
    assert_eq!(len, 1518);
}

#[test]
fn tx_tx_descriptor_prepare_and_submit() {
    let mut desc = TxDescriptor::new();
    desc.prepare_and_submit(256, true, true);
    assert!(desc.is_owned(), "Descriptor should be owned after prepare_and_submit()");
    let len = desc.raw_tdes1() & 0x1FFF;
    assert_eq!(len, 256);
    let raw = desc.raw_tdes0();
    assert!(raw & TDES0_FIRST_SEGMENT != 0);
    assert!(raw & TDES0_LAST_SEGMENT != 0);
}

#[test]
fn tx_tx_descriptor_checksum_mode_disabled() {
    let mut desc = TxDescriptor::new();
    desc.prepare(100, true, true);
    desc.set_checksum_mode(checksum_mode::DISABLED);
    let raw = desc.raw_tdes0();
    let mode = (raw & TDES0_CHECKSUM_INSERT_MASK) >> TDES0_CHECKSUM_INSERT_SHIFT;
    assert_eq!(mode, 0);
}

#[test]
fn tx_tx_descriptor_checksum_mode_ip_only() {
    let mut desc = TxDescriptor::new();
    desc.prepare(100, true, true);
    desc.set_checksum_mode(checksum_mode::IP_ONLY);
    let raw = desc.raw_tdes0();
    let mode = (raw & TDES0_CHECKSUM_INSERT_MASK) >> TDES0_CHECKSUM_INSERT_SHIFT;
    assert_eq!(mode, 1);
}

#[test]
fn tx_tx_descriptor_checksum_mode_full() {
    let mut desc = TxDescriptor::new();
    desc.prepare(100, true, true);
    desc.set_checksum_mode(checksum_mode::FULL);
    let raw = desc.raw_tdes0();
    let mode = (raw & TDES0_CHECKSUM_INSERT_MASK) >> TDES0_CHECKSUM_INSERT_SHIFT;
    assert_eq!(mode, 3);
}

#[test]
fn tx_tx_descriptor_no_errors_initially() {
    let desc = TxDescriptor::new();
    assert!(!desc.has_error());
}

#[test]
fn tx_tx_descriptor_error_detection() {
    let mut desc = TxDescriptor::new();
    desc.tdes0 = TDES0_ERR_SUMMARY;
    assert!(desc.has_error());
    desc.tdes0 = 0;
    assert!(!desc.has_error());
    desc.tdes0 = TDES0_ERR_SUMMARY | TDES0_UNDERFLOW_ERR;
    assert!(desc.has_error());
    let errors = desc.error_flags();
    assert!(errors & TDES0_UNDERFLOW_ERR != 0);
    desc.tdes0 = TDES0_ERR_SUMMARY | TDES0_LATE_COLLISION | TDES0_UNDERFLOW_ERR;
    assert!(desc.has_error());
    let errors = desc.error_flags();
    assert!(errors & TDES0_LATE_COLLISION != 0);
    assert!(errors & TDES0_UNDERFLOW_ERR != 0);
}

#[test]
fn tx_tx_descriptor_reset() {
    let mut desc = TxDescriptor::new();
    desc.prepare_and_submit(1000, true, true);
    desc.set_checksum_mode(checksum_mode::FULL);
    let next_addr = 0x1234_5678u32;
    desc.buffer2_next_desc = next_addr;
    desc.reset();
    assert!(!desc.is_owned());
    let len = desc.raw_tdes1() & 0x1FFF;
    assert_eq!(len, 0);
    assert_eq!(desc.next_desc_addr(), next_addr);
    assert!(desc.raw_tdes0() & TDES0_SECOND_ADDR_CHAINED != 0);
}
