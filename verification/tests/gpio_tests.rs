use ph_esp32_mac::gpio::{
    GpioMatrix, EMAC_MDC_O_IDX, EMAC_MDI_I_IDX, EMAC_MDO_O_IDX, GPIO_BASE,
    GPIO_FUNC_IN_SEL_CFG_BASE, GPIO_FUNC_OUT_SEL_CFG_BASE,
};

#[test]
fn test_signal_indices() {
    assert_eq!(EMAC_MDC_O_IDX, 200);
    assert_eq!(EMAC_MDI_I_IDX, 201);
    assert_eq!(EMAC_MDO_O_IDX, 201);
}

#[test]
fn test_gpio_out_sel_address() {
    // GPIO23 output select address should be GPIO_BASE + 0x530 + (23 * 4)
    let addr = GPIO_BASE + GPIO_FUNC_OUT_SEL_CFG_BASE + (23 * 4);
    assert_eq!(addr, 0x3FF4_458C);
}

#[test]
fn test_gpio_in_sel_address() {
    // Signal 201 input select address should be GPIO_BASE + 0x130 + (201 * 4)
    let addr = GPIO_BASE + GPIO_FUNC_IN_SEL_CFG_BASE + (EMAC_MDI_I_IDX as usize * 4);
    // 0x3FF44000 + 0x130 + 0x324 = 0x3FF44454
    assert_eq!(addr, 0x3FF4_4454);
}

#[test]
fn test_iomux_addresses() {
    assert_eq!(GpioMatrix::iomux_addr_for_gpio(18), 0x3FF4_9070);
    assert_eq!(GpioMatrix::iomux_addr_for_gpio(23), 0x3FF4_908C);
}


#[test]
fn gpio_output_enable_bit_only_below_32() {
    assert_eq!(GpioMatrix::output_enable_bit(23), Some(1 << 23));
    assert_eq!(GpioMatrix::output_enable_bit(0), Some(1));
    assert_eq!(GpioMatrix::output_enable_bit(33), None);
}
