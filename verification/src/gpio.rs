//! GPIO matrix and IO_MUX routing of the EMAC pins: register addresses and
//! the words that route the SMI and RMII signals.

use vstd::prelude::*;

verus! {

/// GPIO block base address
pub const GPIO_BASE: usize = 0x3FF4_4000;
/// Output enable set register offset
pub const GPIO_ENABLE_W1TS_OFFSET: usize = 0x24;
/// Output enable clear register offset
pub const GPIO_ENABLE_W1TC_OFFSET: usize = 0x28;
/// Output set register offset
pub const GPIO_OUT_W1TS_OFFSET: usize = 0x08;
/// Output clear register offset
pub const GPIO_OUT_W1TC_OFFSET: usize = 0x0C;
/// First input signal selection register offset
pub const GPIO_FUNC_IN_SEL_CFG_BASE: usize = 0x130;
/// First output signal selection register offset
pub const GPIO_FUNC_OUT_SEL_CFG_BASE: usize = 0x530;

/// GPIO matrix output signal: EMAC MDC
pub const EMAC_MDC_O_IDX: u32 = 200;
/// GPIO matrix input signal: EMAC MDIO in
pub const EMAC_MDI_I_IDX: u32 = 201;
/// GPIO matrix output signal: EMAC MDIO out
pub const EMAC_MDO_O_IDX: u32 = 201;

/// Output selection: signal field mask
pub const GPIO_FUNC_OUT_SEL_MASK: u32 = 0x1FF;
/// Output selection: output enable driven by the peripheral
pub const GPIO_OEN_SEL: u32 = 0x400;
/// Output selection: invert the output
pub const GPIO_OUT_INV_SEL: u32 = 0x200;
/// Output selection: invert the output enable
pub const GPIO_OEN_INV_SEL: u32 = 0x800;
/// Input selection: GPIO field mask
pub const GPIO_FUNC_IN_SEL_MASK: u32 = 0x3F;
/// Input selection: invert the input
pub const GPIO_IN_INV_SEL: u32 = 0x40;
/// Input selection: route through the GPIO matrix
pub const GPIO_SIG_IN_SEL: u32 = 0x80;
/// Output signal that hands a pad back to its IO_MUX function
pub const SIG_GPIO_OUT_IDX: u32 = 256;

/// IO_MUX block base address
pub const IO_MUX_BASE: usize = 0x3FF4_9000;
/// IO_MUX register offset of GPIO18
pub const IO_MUX_GPIO18_OFFSET: usize = 0x70;
/// IO_MUX register offset of GPIO23
pub const IO_MUX_GPIO23_OFFSET: usize = 0x8C;
/// IO_MUX function select shift
pub const IO_MUX_MCU_SEL_SHIFT: u32 = 12;
/// IO_MUX function select mask
pub const IO_MUX_MCU_SEL_MASK: u32 = 0x7000;
/// IO_MUX function 2: GPIO matrix
pub const IO_MUX_FUNC_GPIO: u32 = 2;
/// IO_MUX function 5: EMAC
pub const IO_MUX_FUNC_EMAC: u32 = 5;
/// IO_MUX input enable
pub const IO_MUX_FUN_IE: u32 = 0x200;
/// IO_MUX pull-down enable
pub const IO_MUX_FUN_WPD: u32 = 0x80;
/// IO_MUX pull-up enable
pub const IO_MUX_FUN_WPU: u32 = 0x100;
/// IO_MUX drive strength shift
pub const IO_MUX_FUN_DRV_SHIFT: u32 = 10;
/// IO_MUX drive strength mask
pub const IO_MUX_FUN_DRV_MASK: u32 = 0xC00;

/// The IO_MUX register offset of `gpio`, 0 for a GPIO without one.
pub open spec fn iomux_offset(gpio: u8) -> usize {
    if gpio == 0 { 0x44 } else if gpio == 1 { 0x88 } else if gpio == 2 { 0x40 } else if gpio == 3 {
        0x84
    } else if gpio == 4 { 0x48 } else if gpio == 5 { 0x6C } else if gpio == 6 { 0x60 } else if gpio
        == 7 { 0x64 } else if gpio == 8 { 0x68 } else if gpio == 9 { 0x54 } else if gpio == 10 {
        0x58
    } else if gpio == 11 { 0x5C } else if gpio == 12 { 0x34 } else if gpio == 13 { 0x38 } else if gpio
        == 14 { 0x30 } else if gpio == 15 { 0x3C } else if gpio == 16 { 0x4C } else if gpio == 17 {
        0x50
    } else if gpio == 18 { 0x70 } else if gpio == 19 { 0x74 } else if gpio == 20 { 0x78 } else if gpio
        == 21 { 0x7C } else if gpio == 22 { 0x80 } else if gpio == 23 { 0x8C } else if gpio == 25 {
        0x24
    } else if gpio == 26 { 0x28 } else if gpio == 27 { 0x2C } else if gpio == 32 { 0x1C } else if gpio
        == 33 { 0x20 } else if gpio == 34 { 0x14 } else if gpio == 35 { 0x18 } else if gpio == 36 {
        0x04
    } else if gpio == 37 { 0x08 } else if gpio == 38 { 0x0C } else if gpio == 39 { 0x10 } else { 0 }
}

/// GPIO matrix and IO_MUX routing of the EMAC pins.
pub struct GpioMatrix;

impl GpioMatrix {
    /// The IO_MUX register address of `gpio_num`, 0 for a GPIO without one.
    pub fn iomux_addr_for_gpio(gpio_num: u8) -> (r: usize)
        ensures
            iomux_offset(gpio_num) == 0 ==> r == 0,
            iomux_offset(gpio_num) != 0 ==> r == IO_MUX_BASE + iomux_offset(gpio_num),
    {
        let offset: usize = match gpio_num {
            0 => 0x44,
            1 => 0x88,
            2 => 0x40,
            3 => 0x84,
            4 => 0x48,
            5 => 0x6C,
            6 => 0x60,
            7 => 0x64,
            8 => 0x68,
            9 => 0x54,
            10 => 0x58,
            11 => 0x5C,
            12 => 0x34,
            13 => 0x38,
            14 => 0x30,
            15 => 0x3C,
            16 => 0x4C,
            17 => 0x50,
            18 => 0x70,
            19 => 0x74,
            20 => 0x78,
            21 => 0x7C,
            22 => 0x80,
            23 => 0x8C,
            25 => 0x24,
            26 => 0x28,
            27 => 0x2C,
            32 => 0x1C,
            33 => 0x20,
            34 => 0x14,
            35 => 0x18,
            36 => 0x04,
            37 => 0x08,
            38 => 0x0C,
            39 => 0x10,
            _ => 0,
        };
        if offset == 0 {
            return 0;
        }
        IO_MUX_BASE + offset
    }

    /// The output signal selection register address of `gpio_num`.
    pub fn out_sel_addr(gpio_num: u8) -> (r: usize)
        ensures
            r == GPIO_BASE + GPIO_FUNC_OUT_SEL_CFG_BASE + gpio_num * 4,
    {
        GPIO_BASE + GPIO_FUNC_OUT_SEL_CFG_BASE + (gpio_num as usize) * 4
    }

    /// The bit of `gpio_num` in the output enable-set register; GPIOs from
    /// 32 on have none there.
    pub fn output_enable_bit(gpio_num: u8) -> (r: Option<u32>)
        ensures
            gpio_num < 32 ==> r == Some(1u32 << gpio_num),
            gpio_num >= 32 ==> r is None,
    {
        if gpio_num < 32 {
            Some(1u32 << gpio_num)
        } else {
            None
        }
    }

    /// The input signal selection register address of signal `signal`.
    pub fn in_sel_addr(signal: u32) -> (r: usize)
        requires
            signal < 0x1000,
        ensures
            r == GPIO_BASE + GPIO_FUNC_IN_SEL_CFG_BASE + signal * 4,
    {
        GPIO_BASE + GPIO_FUNC_IN_SEL_CFG_BASE + (signal as usize) * 4
    }

    /// The IO_MUX word routing a pad to the GPIO matrix, from its current
    /// value `current`, with the input enabled if `input`.
    pub fn iomux_matrix_word(current: u32, input: bool) -> (r: u32)
        ensures
            r == (current & !IO_MUX_MCU_SEL_MASK) | (IO_MUX_FUNC_GPIO << IO_MUX_MCU_SEL_SHIFT) | (
            if input {
                IO_MUX_FUN_IE
            } else {
                0
            }),
    {
        let ie = if input {
            IO_MUX_FUN_IE
        } else {
            0
        };
        (current & !IO_MUX_MCU_SEL_MASK) | (IO_MUX_FUNC_GPIO << IO_MUX_MCU_SEL_SHIFT) | ie
    }

    /// The output selection word driving a pad with `signal`, output enable
    /// from the peripheral.
    pub fn out_sel_word(signal: u32) -> (r: u32)
        ensures
            r == (signal & GPIO_FUNC_OUT_SEL_MASK) | GPIO_OEN_SEL,
    {
        (signal & GPIO_FUNC_OUT_SEL_MASK) | GPIO_OEN_SEL
    }

    /// The input selection word feeding a signal from `gpio_num` through the
    /// GPIO matrix.
    pub fn in_sel_word(gpio_num: u8) -> (r: u32)
        ensures
            r == ((gpio_num as u32) & GPIO_FUNC_IN_SEL_MASK) | GPIO_SIG_IN_SEL,
    {
        ((gpio_num as u32) & GPIO_FUNC_IN_SEL_MASK) | GPIO_SIG_IN_SEL
    }

    /// The IO_MUX word giving an output pad to function `func`: pulls off,
    /// input off, maximum drive strength.
    pub fn iomux_output_word(current: u32, func: u32) -> (r: u32)
        ensures
            r == (current & !IO_MUX_MCU_SEL_MASK & !IO_MUX_FUN_WPD & !IO_MUX_FUN_WPU & !IO_MUX_FUN_IE
                & !IO_MUX_FUN_DRV_MASK) | (func << IO_MUX_MCU_SEL_SHIFT) | IO_MUX_FUN_DRV_MASK,
    {
        (current & !IO_MUX_MCU_SEL_MASK & !IO_MUX_FUN_WPD & !IO_MUX_FUN_WPU & !IO_MUX_FUN_IE
            & !IO_MUX_FUN_DRV_MASK) | (func << IO_MUX_MCU_SEL_SHIFT) | IO_MUX_FUN_DRV_MASK
    }

    /// The IO_MUX word giving an input pad to function `func`: pulls off,
    /// input on.
    pub fn iomux_input_word(current: u32, func: u32) -> (r: u32)
        ensures
            r == (current & !IO_MUX_MCU_SEL_MASK & !IO_MUX_FUN_WPD & !IO_MUX_FUN_WPU) | (func
                << IO_MUX_MCU_SEL_SHIFT) | IO_MUX_FUN_IE,
    {
        (current & !IO_MUX_MCU_SEL_MASK & !IO_MUX_FUN_WPD & !IO_MUX_FUN_WPU) | (func
            << IO_MUX_MCU_SEL_SHIFT) | IO_MUX_FUN_IE
    }
}

} // verus!
