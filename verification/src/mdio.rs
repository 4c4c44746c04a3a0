//! MDIO (IEEE 802.3 clause 22) management interface: the bus trait, the
//! MII address word, the PHY register definitions and the PHY helpers.

pub mod phy_reg;
pub mod bmcr;
pub mod bmsr;
pub mod anar;
pub mod anlpar;

use vstd::prelude::*;
use crate::error::{ConfigError, Error, Result};
use crate::regs::mac::{
    GMACMIIADDR_CR_MASK, GMACMIIADDR_CR_SHIFT, GMACMIIADDR_GB, GMACMIIADDR_GR_MASK,
    GMACMIIADDR_GR_SHIFT, GMACMIIADDR_GW, GMACMIIADDR_PA_MASK, GMACMIIADDR_PA_SHIFT,
};

verus! {

/// MDIO operation timeout in microseconds
pub const MDIO_TIMEOUT_US: u32 = 1_000;
/// Highest PHY address (5-bit field)
pub const MAX_PHY_ADDR: u8 = 31;
/// Highest register address (5-bit field)
pub const MAX_REG_ADDR: u8 = 31;

/// MDC clock divider, chosen by system clock range.
#[derive(Debug, Clone, Copy, PartialEq, Eq, Structural)]
pub enum MdcClockDivider {
    /// System clock / 42 (60-100 MHz)
    Div42,
    /// System clock / 62 (100-150 MHz)
    Div62,
    /// System clock / 16 (20-35 MHz)
    Div16,
    /// System clock / 26 (35-60 MHz)
    Div26,
    /// System clock / 102 (150-250 MHz)
    Div102,
    /// System clock / 124 (250-300 MHz)
    Div124,
}

/// The divider for a system clock of `hz`: the one whose range holds it.
pub open spec fn divider_for(hz: u32) -> MdcClockDivider {
    if hz < 35_000_000 {
        MdcClockDivider::Div16
    } else if hz < 60_000_000 {
        MdcClockDivider::Div26
    } else if hz < 100_000_000 {
        MdcClockDivider::Div42
    } else if hz < 150_000_000 {
        MdcClockDivider::Div62
    } else if hz < 250_000_000 {
        MdcClockDivider::Div102
    } else {
        MdcClockDivider::Div124
    }
}

/// The system clock divisor of `d`.
pub open spec fn divisor(d: MdcClockDivider) -> int {
    match d {
        MdcClockDivider::Div42 => 42,
        MdcClockDivider::Div62 => 62,
        MdcClockDivider::Div16 => 16,
        MdcClockDivider::Div26 => 26,
        MdcClockDivider::Div102 => 102,
        MdcClockDivider::Div124 => 124,
    }
}

/// The divider chosen for a system clock of up to 310 MHz keeps MDC at or
/// below the 2.5 MHz that IEEE 802.3 allows (above that the largest divider
/// is not enough).
pub proof fn lemma_mdc_within_limit(hz: u32)
    requires
        hz <= 310_000_000,
    ensures
        (hz as int) / divisor(divider_for(hz)) <= 2_500_000,
{
    let h = hz as int;
    let d = divisor(divider_for(hz));
    assert(h / d <= 2_500_000) by (nonlinear_arith)
        requires
            0 <= h,
            d == 16 ==> h < 35_000_000,
            d == 26 ==> h < 60_000_000,
            d == 42 ==> h < 100_000_000,
            d == 62 ==> h < 150_000_000,
            d == 102 ==> h < 250_000_000,
            d == 124 ==> h <= 310_000_000,
            d == 16 || d == 26 || d == 42 || d == 62 || d == 102 || d == 124,
    ;
}

/// The CSR clock range field value of `d`.
pub open spec fn divider_bits(d: MdcClockDivider) -> u32 {
    match d {
        MdcClockDivider::Div42 => 0,
        MdcClockDivider::Div62 => 1,
        MdcClockDivider::Div16 => 2,
        MdcClockDivider::Div26 => 3,
        MdcClockDivider::Div102 => 4,
        MdcClockDivider::Div124 => 5,
    }
}

impl MdcClockDivider {
    /// The divider that keeps MDC at or below 2.5 MHz for a system clock of
    /// `sys_clk_hz`.
    pub fn from_sys_clock_hz(sys_clk_hz: u32) -> (r: Self)
        ensures
            r == divider_for(sys_clk_hz),
    {
        if sys_clk_hz < 35_000_000 {
            MdcClockDivider::Div16
        } else if sys_clk_hz < 60_000_000 {
            MdcClockDivider::Div26
        } else if sys_clk_hz < 100_000_000 {
            MdcClockDivider::Div42
        } else if sys_clk_hz < 150_000_000 {
            MdcClockDivider::Div62
        } else if sys_clk_hz < 250_000_000 {
            MdcClockDivider::Div102
        } else {
            MdcClockDivider::Div124
        }
    }

    /// The CSR clock range field value.
    pub fn to_reg_value(self) -> (r: u32)
        ensures
            r == divider_bits(self),
    {
        match self {
            MdcClockDivider::Div42 => 0,
            MdcClockDivider::Div62 => 1,
            MdcClockDivider::Div16 => 2,
            MdcClockDivider::Div26 => 3,
            MdcClockDivider::Div102 => 4,
            MdcClockDivider::Div124 => 5,
        }
    }
}

impl Default for MdcClockDivider {
    /// Divide by 102.
    fn default() -> (r: Self)
        ensures
            r == MdcClockDivider::Div102,
    {
        MdcClockDivider::Div102
    }
}

/// An MDIO transfer and its outcome: PHY address, register and the value
/// read or written.
#[derive(Debug, Clone, Copy, PartialEq, Eq, Structural)]
pub enum MdioOp {
    /// A read that returned the value
    Read(u8, u8, u16),
    /// A write of the value
    Write(u8, u8, u16),
    /// A read that failed with the error
    ReadFailed(u8, u8, Error),
    /// A write of the value that failed with the error
    WriteFailed(u8, u8, u16, Error),
}

/// A read of register `reg` of the PHY at `phy` that returned `v`.
pub open spec fn read_op(phy: u8, reg: u8, v: u16) -> MdioOp {
    MdioOp::Read(phy, reg, v)
}

/// A write of `v` to register `reg` of the PHY at `phy`.
pub open spec fn write_op(phy: u8, reg: u8, v: u16) -> MdioOp {
    MdioOp::Write(phy, reg, v)
}

/// A read of register `reg` of the PHY at `phy` that failed with `e`.
pub open spec fn read_failed_op(phy: u8, reg: u8, e: Error) -> MdioOp {
    MdioOp::ReadFailed(phy, reg, e)
}

/// A write of `v` to register `reg` of the PHY at `phy` that failed with
/// `e`.
pub open spec fn write_failed_op(phy: u8, reg: u8, v: u16, e: Error) -> MdioOp {
    MdioOp::WriteFailed(phy, reg, v, e)
}

/// MDIO bus: reads and writes PHY registers.
pub trait MdioBus {
    /// The transfers made on the bus so far, oldest first, each with its
    /// outcome. A verified implementation defines it and proves `read` and
    /// `write` against it; the default, an empty record, lets
    /// implementations outside verified code compile, and nothing is proved
    /// of those.
    closed spec fn transfers(&self) -> Seq<MdioOp> {
        Seq::empty()
    }

    /// Read register `reg_addr` of the PHY at `phy_addr`. A read that
    /// succeeds is recorded with its value; one that fails is recorded with
    /// the error it returns.
    fn read(&mut self, phy_addr: u8, reg_addr: u8) -> (r: Result<u16>)
        ensures
            r matches Ok(v) ==> final(self).transfers() == old(self).transfers().push(
                read_op(phy_addr, reg_addr, v),
            ),
            r matches Err(e) ==> final(self).transfers() == old(self).transfers().push(
                read_failed_op(phy_addr, reg_addr, e),
            ),
    ;

    /// Write `value` to register `reg_addr` of the PHY at `phy_addr`. A write
    /// that succeeds is recorded; one that fails is recorded with the error
    /// it returns.
    fn write(&mut self, phy_addr: u8, reg_addr: u8, value: u16) -> (r: Result<()>)
        ensures
            r is Ok ==> final(self).transfers() == old(self).transfers().push(
                write_op(phy_addr, reg_addr, value),
            ),
            r matches Err(e) ==> final(self).transfers() == old(self).transfers().push(
                write_failed_op(phy_addr, reg_addr, value, e),
            ),
    ;

    /// Whether a transfer is in progress.
    fn is_busy(&self) -> bool;
}

/// The MII address register word that starts a transfer: PHY address,
/// register, clock range, the write flag and the busy flag.
pub open spec fn mii_command(phy_addr: u8, reg_addr: u8, divider: u32, is_write: bool) -> u32 {
    (((phy_addr as u32) << GMACMIIADDR_PA_SHIFT) & GMACMIIADDR_PA_MASK) | (((reg_addr as u32)
        << GMACMIIADDR_GR_SHIFT) & GMACMIIADDR_GR_MASK) | ((divider << GMACMIIADDR_CR_SHIFT)
        & GMACMIIADDR_CR_MASK) | (if is_write {
        GMACMIIADDR_GW
    } else {
        0
    }) | GMACMIIADDR_GB
}

/// The MII address register word for a transfer with register `reg_addr` of
/// the PHY at `phy_addr`, MDC derived with `divider`.
pub fn mii_address_word(phy_addr: u8, reg_addr: u8, divider: MdcClockDivider, is_write: bool) -> (r:
    u32)
    ensures
        r == mii_command(phy_addr, reg_addr, divider_bits(divider), is_write),
        r & GMACMIIADDR_GB != 0,
        (r & GMACMIIADDR_GW != 0) == is_write,
        phy_addr <= MAX_PHY_ADDR ==> (r & GMACMIIADDR_PA_MASK) >> GMACMIIADDR_PA_SHIFT == phy_addr,
        reg_addr <= MAX_REG_ADDR ==> (r & GMACMIIADDR_GR_MASK) >> GMACMIIADDR_GR_SHIFT == reg_addr,
{
    let pa = ((phy_addr as u32) << GMACMIIADDR_PA_SHIFT) & GMACMIIADDR_PA_MASK;
    let gr = ((reg_addr as u32) << GMACMIIADDR_GR_SHIFT) & GMACMIIADDR_GR_MASK;
    let d = divider.to_reg_value();
    let cr = (d << GMACMIIADDR_CR_SHIFT) & GMACMIIADDR_CR_MASK;
    let gw = if is_write {
        GMACMIIADDR_GW
    } else {
        0
    };
    let r = pa | gr | cr | gw | GMACMIIADDR_GB;
    proof {
        let p = phy_addr as u32;
        let g = reg_addr as u32;
        assert(d <= 5);
        assert(((pa | gr | cr | gw | 1u32) & 1u32 != 0)) by (bit_vector);
        assert(gw == 0 || gw == 2u32);
        assert((gw == 0 || gw == 2u32) && pa == (p << 11u32) & 0xF800u32 && gr == (g << 6u32)
            & 0x07C0u32 && cr == (d << 2u32) & 0x3Cu32 ==> (((pa | gr | cr | gw | 1u32) & 2u32
            != 0) == (gw != 0))) by (bit_vector);
        assert(p < 32 && pa == (p << 11u32) & 0xF800u32 && gr == (g << 6u32) & 0x07C0u32 && cr
            == (d << 2u32) & 0x3Cu32 && (gw == 0 || gw == 2u32) ==> ((pa | gr | cr | gw | 1u32)
            & 0xF800u32) >> 11u32 == p) by (bit_vector);
        assert(g < 32 && pa == (p << 11u32) & 0xF800u32 && gr == (g << 6u32) & 0x07C0u32 && cr
            == (d << 2u32) & 0x3Cu32 && (gw == 0 || gw == 2u32) ==> ((pa | gr | cr | gw | 1u32)
            & 0x07C0u32) >> 6u32 == g) by (bit_vector);
    }
    r
}

/// Check a PHY and register address pair: both are 5-bit fields.
pub fn check_mdio_address(phy_addr: u8, reg_addr: u8) -> (r: Result<()>)
    ensures
        phy_addr > MAX_PHY_ADDR ==> r == Err::<(), Error>(Error::Config(ConfigError::InvalidPhyAddress)),
        phy_addr <= MAX_PHY_ADDR && reg_addr > MAX_REG_ADDR ==> r == Err::<(), Error>(
            Error::Config(ConfigError::InvalidConfig),
        ),
        phy_addr <= MAX_PHY_ADDR && reg_addr <= MAX_REG_ADDR ==> r == Ok::<(), Error>(()),
{
    if phy_addr > MAX_PHY_ADDR {
        return Err(Error::Config(ConfigError::InvalidPhyAddress));
    }
    if reg_addr > MAX_REG_ADDR {
        return Err(Error::Config(ConfigError::InvalidConfig));
    }
    Ok(())
}

/// PHY link state read from BMSR and BMCR.
#[derive(Debug, Clone, Copy, PartialEq, Eq, Structural)]
pub struct PhyStatus {
    /// Link is up
    pub link_up: bool,
    /// Auto-negotiation complete
    pub an_complete: bool,
    /// 100 Mbps selected (10 Mbps otherwise)
    pub speed_100: bool,
    /// Full duplex selected (half otherwise)
    pub full_duplex: bool,
}

/// The link state given by the BMSR value `bmsr_val` and the BMCR value
/// `bmcr_val`.
pub open spec fn phy_status_of(bmsr_val: u16, bmcr_val: u16) -> PhyStatus {
    PhyStatus {
        link_up: bmsr_val & bmsr::LINK_STATUS != 0,
        an_complete: bmsr_val & bmsr::AN_COMPLETE != 0,
        speed_100: bmcr_val & bmcr::SPEED_100 != 0,
        full_duplex: bmcr_val & bmcr::DUPLEX_FULL != 0,
    }
}

/// What the link state decoded from a BMSR and a BMCR value says: the link
/// is up when BMSR bit 2 is set and auto-negotiation complete when bit 5
/// is; 100 Mbps is selected when BMCR bit 13 is set and full duplex when
/// bit 8 is.
pub proof fn lemma_phy_status_bits(bmsr_val: u16, bmcr_val: u16)
    ensures
        bmsr::LINK_STATUS == 0x0004,
        bmsr::AN_COMPLETE == 0x0020,
        bmcr::SPEED_100 == 0x2000,
        bmcr::DUPLEX_FULL == 0x0100,
        phy_status_of(bmsr_val, bmcr_val).link_up == (bmsr_val & bmsr::LINK_STATUS != 0),
        phy_status_of(bmsr_val, bmcr_val).an_complete == (bmsr_val & bmsr::AN_COMPLETE != 0),
        phy_status_of(bmsr_val, bmcr_val).speed_100 == (bmcr_val & bmcr::SPEED_100 != 0),
        phy_status_of(bmsr_val, bmcr_val).full_duplex == (bmcr_val & bmcr::DUPLEX_FULL != 0),
{
}

impl PhyStatus {
    /// The link state given by a BMSR and a BMCR value.
    pub fn from_registers(bmsr_val: u16, bmcr_val: u16) -> (r: Self)
        ensures
            r == phy_status_of(bmsr_val, bmcr_val),
            r.link_up == (bmsr_val & bmsr::LINK_STATUS != 0),
            r.an_complete == (bmsr_val & bmsr::AN_COMPLETE != 0),
            r.speed_100 == (bmcr_val & bmcr::SPEED_100 != 0),
            r.full_duplex == (bmcr_val & bmcr::DUPLEX_FULL != 0),
    {
        PhyStatus {
            link_up: (bmsr_val & bmsr::LINK_STATUS) != 0,
            an_complete: (bmsr_val & bmsr::AN_COMPLETE) != 0,
            speed_100: (bmcr_val & bmcr::SPEED_100) != 0,
            full_duplex: (bmcr_val & bmcr::DUPLEX_FULL) != 0,
        }
    }
}

impl Default for PhyStatus {
    /// Every flag clear.
    fn default() -> (r: Self)
        ensures
            r == (PhyStatus { link_up: false, an_complete: false, speed_100: false, full_duplex: false }),
    {
        PhyStatus { link_up: false, an_complete: false, speed_100: false, full_duplex: false }
    }
}

/// Read BMSR, then BMCR, of the PHY at `phy_addr` and decode the link state.
pub fn read_phy_status<M: MdioBus>(mdio: &mut M, phy_addr: u8) -> (r: Result<PhyStatus>)
    ensures
        r matches Ok(s) ==> exists|bmsr_val: u16, bmcr_val: u16|
            #![trigger phy_status_of(bmsr_val, bmcr_val)]
            s == phy_status_of(bmsr_val, bmcr_val) && final(mdio).transfers() == old(
                mdio,
            ).transfers() + seq![
                read_op(phy_addr, phy_reg::BMSR, bmsr_val),
                read_op(phy_addr, phy_reg::BMCR, bmcr_val),
            ],
        r matches Ok(s) ==> exists|bmsr_val: u16, bmcr_val: u16|
            #![trigger read_op(phy_addr, phy_reg::BMSR, bmsr_val), read_op(phy_addr, phy_reg::BMCR, bmcr_val)]
            final(mdio).transfers() == old(mdio).transfers() + seq![
                read_op(phy_addr, phy_reg::BMSR, bmsr_val),
                read_op(phy_addr, phy_reg::BMCR, bmcr_val),
            ] && s.link_up == (bmsr_val & bmsr::LINK_STATUS != 0) && s.an_complete == (bmsr_val
                & bmsr::AN_COMPLETE != 0) && s.speed_100 == (bmcr_val & bmcr::SPEED_100 != 0)
                && s.full_duplex == (bmcr_val & bmcr::DUPLEX_FULL != 0),
        r matches Err(e) ==> final(mdio).transfers() == old(mdio).transfers().push(
            read_failed_op(phy_addr, phy_reg::BMSR, e),
        ) || exists|v: u16|
            #![trigger read_op(phy_addr, phy_reg::BMSR, v)]
            final(mdio).transfers() == old(mdio).transfers() + seq![
                read_op(phy_addr, phy_reg::BMSR, v),
                read_failed_op(phy_addr, phy_reg::BMCR, e),
            ],
{
    let bmsr_val = mdio.read(phy_addr, phy_reg::BMSR)?;
    let bmcr_val = match mdio.read(phy_addr, phy_reg::BMCR) {
        Ok(v) => v,
        Err(e) => {
            proof {
                assert(mdio.transfers() =~= old(mdio).transfers() + seq![
                    read_op(phy_addr, phy_reg::BMSR, bmsr_val),
                    read_failed_op(phy_addr, phy_reg::BMCR, e),
                ]);
            }
            return Err(e);
        },
    };
    let s = PhyStatus::from_registers(bmsr_val, bmcr_val);
    proof {
        assert(mdio.transfers() =~= old(mdio).transfers() + seq![
            read_op(phy_addr, phy_reg::BMSR, bmsr_val),
            read_op(phy_addr, phy_reg::BMCR, bmcr_val),
        ]);
    }
    Ok(s)
}

/// Start a software reset of the PHY at `phy_addr`: write BMCR.RESET.
pub fn reset_phy<M: MdioBus>(mdio: &mut M, phy_addr: u8) -> (r: Result<()>)
    ensures
        r is Ok ==> final(mdio).transfers() == old(mdio).transfers().push(
            write_op(phy_addr, phy_reg::BMCR, bmcr::RESET),
        ),
        r matches Err(e) ==> final(mdio).transfers() == old(mdio).transfers().push(
            write_failed_op(phy_addr, phy_reg::BMCR, bmcr::RESET, e),
        ),
{
    mdio.write(phy_addr, phy_reg::BMCR, bmcr::RESET)
}

/// The 32-bit PHY identifier from the PHYIDR1 and PHYIDR2 values.
pub open spec fn phy_id_of(id1: u16, id2: u16) -> u32 {
    ((id1 as u32) << 16u32) | (id2 as u32)
}

/// Read PHYIDR1, then PHYIDR2, of the PHY at `phy_addr`: the identifier,
/// PHYIDR1 in the upper half.
pub fn read_phy_id<M: MdioBus>(mdio: &mut M, phy_addr: u8) -> (r: Result<u32>)
    ensures
        r matches Ok(id) ==> exists|id1: u16, id2: u16|
            #![trigger id_read(old(mdio).transfers(), final(mdio).transfers(), phy_addr, id1, id2)]
            id == phy_id_of(id1, id2) && id == id1 * 0x1_0000 + id2 && id_read(
                old(mdio).transfers(),
                final(mdio).transfers(),
                phy_addr,
                id1,
                id2,
            ),
        r matches Err(e) ==> id_read_failed(old(mdio).transfers(), final(mdio).transfers(), phy_addr, e),
{
    let id1 = mdio.read(phy_addr, phy_reg::PHYIDR1)?;
    let id2 = match mdio.read(phy_addr, phy_reg::PHYIDR2) {
        Ok(v) => v,
        Err(e) => {
            proof {
                assert(mdio.transfers() =~= old(mdio).transfers() + seq![
                    read_op(phy_addr, phy_reg::PHYIDR1, id1),
                    read_failed_op(phy_addr, phy_reg::PHYIDR2, e),
                ]);
            }
            return Err(e);
        },
    };
    let a = id1 as u32;
    let b = id2 as u32;
    proof {
        assert(a < 0x1_0000 && b < 0x1_0000 ==> (a << 16u32) | b == a * 0x1_0000 + b) by (bit_vector);
        assert(phy_id_of(id1, id2) == id1 * 0x1_0000 + id2);
        assert(mdio.transfers() =~= old(mdio).transfers() + seq![
            read_op(phy_addr, phy_reg::PHYIDR1, id1),
            read_op(phy_addr, phy_reg::PHYIDR2, id2),
        ]);
        assert(id_read(old(mdio).transfers(), mdio.transfers(), phy_addr, id1, id2));
    }
    Ok((a << 16) | b)
}

/// BMCR value `b` with auto-negotiation enabled and restarted and isolation
/// cleared.
pub open spec fn an_enabled_bmcr(b: u16) -> u16 {
    (b | bmcr::AN_ENABLE | bmcr::AN_RESTART) & !bmcr::ISOLATE
}

/// The BMCR value that enables and restarts auto-negotiation on a PHY whose
/// BMCR is `bmcr_val`.
pub fn an_enable_value(bmcr_val: u16) -> (r: u16)
    ensures
        r == an_enabled_bmcr(bmcr_val),
        r & bmcr::AN_ENABLE != 0,
        r & bmcr::AN_RESTART != 0,
        r & bmcr::ISOLATE == 0,
{
    let r = (bmcr_val | bmcr::AN_ENABLE | bmcr::AN_RESTART) & !bmcr::ISOLATE;
    proof {
        let v = bmcr_val;
        assert(((v | 0x1000u16 | 0x0200u16) & !0x0400u16) & 0x1000u16 != 0 && ((v | 0x1000u16
            | 0x0200u16) & !0x0400u16) & 0x0200u16 != 0 && ((v | 0x1000u16 | 0x0200u16)
            & !0x0400u16) & 0x0400u16 == 0) by (bit_vector);
    }
    r
}

/// Enable and restart auto-negotiation on the PHY at `phy_addr`: read BMCR,
/// then write it back with AN enabled and restarted and isolation cleared.
pub fn enable_auto_negotiation<M: MdioBus>(mdio: &mut M, phy_addr: u8) -> (r: Result<()>)
    ensures
        reg_updated(
            old(mdio).transfers(),
            final(mdio).transfers(),
            phy_addr,
            phy_reg::BMCR,
            r,
            |b: u16| an_enabled_bmcr(b),
        ),
{
    let bmcr_val = mdio.read(phy_addr, phy_reg::BMCR)?;
    let v = an_enable_value(bmcr_val);
    let w = mdio.write(phy_addr, phy_reg::BMCR, v);
    proof {
        if w is Ok {
            assert(mdio.transfers() =~= old(mdio).transfers() + seq![
                read_op(phy_addr, phy_reg::BMCR, bmcr_val),
                write_op(phy_addr, phy_reg::BMCR, v),
            ]);
        } else {
            assert(mdio.transfers() =~= old(mdio).transfers() + seq![
                read_op(phy_addr, phy_reg::BMCR, bmcr_val),
                write_failed_op(phy_addr, phy_reg::BMCR, v, w->Err_0),
            ]);
        }
    }
    w
}

/// `after` is `before` followed by what a read-modify-write of register
/// `reg` of the PHY at `phy` that ended with `r` leaves: on success a read of
/// some value `b` and a write of `f(b)`; on failure a failed read, or a read
/// of `b` and a failed write of `f(b)`, failed with the error returned.
pub open spec fn reg_updated(
    before: Seq<MdioOp>,
    after: Seq<MdioOp>,
    phy: u8,
    reg: u8,
    r: Result<()>,
    f: spec_fn(u16) -> u16,
) -> bool {
    &&& r is Ok ==> exists|b: u16|
        #![trigger read_op(phy, reg, b)]
        after == before + seq![read_op(phy, reg, b), write_op(phy, reg, f(b))]
    &&& r matches Err(e) ==> after == before.push(read_failed_op(phy, reg, e)) || exists|b: u16|
        #![trigger read_op(phy, reg, b)]
        after == before + seq![read_op(phy, reg, b), write_failed_op(phy, reg, f(b), e)]
}

/// `after` is `before` followed by one read of register `reg` of the PHY at
/// `phy`, which returned `v`.
pub open spec fn one_read(before: Seq<MdioOp>, after: Seq<MdioOp>, phy: u8, reg: u8, v: u16) -> bool {
    after == before.push(read_op(phy, reg, v))
}

/// `after` is `before` followed by a read of PHYIDR1 that returned `id1` and
/// one of PHYIDR2 that returned `id2`, of the PHY at `phy`.
pub open spec fn id_read(before: Seq<MdioOp>, after: Seq<MdioOp>, phy: u8, id1: u16, id2: u16) -> bool {
    after == before + seq![read_op(phy, phy_reg::PHYIDR1, id1), read_op(phy, phy_reg::PHYIDR2, id2)]
}

/// `after` is what an identifier read that failed with `e` leaves after
/// `before`: a failed read of PHYIDR1, or a read of PHYIDR1 and a failed
/// read of PHYIDR2.
pub open spec fn id_read_failed(before: Seq<MdioOp>, after: Seq<MdioOp>, phy: u8, e: Error) -> bool {
    ||| after == before.push(read_failed_op(phy, phy_reg::PHYIDR1, e))
    ||| exists|v: u16|
        #![trigger read_op(phy, phy_reg::PHYIDR1, v)]
        after == before + seq![read_op(phy, phy_reg::PHYIDR1, v), read_failed_op(phy, phy_reg::PHYIDR2, e)]
}

/// BMCR value `b` with auto-negotiation and isolation cleared and speed and
/// duplex forced; the other bits are kept.
pub open spec fn forced_bmcr(b: u16, speed_100: bool, full_duplex: bool) -> u16 {
    (b & !(bmcr::AN_ENABLE | bmcr::ISOLATE | bmcr::SPEED_100 | bmcr::DUPLEX_FULL)) | (if speed_100 {
        bmcr::SPEED_100
    } else {
        0
    }) | (if full_duplex {
        bmcr::DUPLEX_FULL
    } else {
        0
    })
}

/// The BMCR value that forces speed and duplex on a PHY whose BMCR is
/// `bmcr_val`.
pub fn force_bmcr_value(bmcr_val: u16, speed_100: bool, full_duplex: bool) -> (r: u16)
    ensures
        r == forced_bmcr(bmcr_val, speed_100, full_duplex),
        r & bmcr::AN_ENABLE == 0,
        r & bmcr::ISOLATE == 0,
        (r & bmcr::SPEED_100 != 0) == speed_100,
        (r & bmcr::DUPLEX_FULL != 0) == full_duplex,
{
    let mut b = bmcr_val;
    b = b & !bmcr::AN_ENABLE;
    b = b & !bmcr::ISOLATE;
    if speed_100 {
        b = b | bmcr::SPEED_100;
    } else {
        b = b & !bmcr::SPEED_100;
    }
    if full_duplex {
        b = b | bmcr::DUPLEX_FULL;
    } else {
        b = b & !bmcr::DUPLEX_FULL;
    }
    proof {
        let v = bmcr_val;
        assert(((((v & !0x1000u16) & !0x0400u16) | 0x2000u16) | 0x0100u16) == (v & !(0x1000u16
            | 0x0400u16 | 0x2000u16 | 0x0100u16)) | 0x2000u16 | 0x0100u16 && ((((v & !0x1000u16)
            & !0x0400u16) | 0x2000u16) & !0x0100u16) == (v & !(0x1000u16 | 0x0400u16 | 0x2000u16
            | 0x0100u16)) | 0x2000u16 | 0u16 && ((((v & !0x1000u16) & !0x0400u16) & !0x2000u16)
            | 0x0100u16) == (v & !(0x1000u16 | 0x0400u16 | 0x2000u16 | 0x0100u16)) | 0u16 | 0x0100u16
            && ((((v & !0x1000u16) & !0x0400u16) & !0x2000u16) & !0x0100u16) == (v & !(0x1000u16
            | 0x0400u16 | 0x2000u16 | 0x0100u16)) | 0u16 | 0u16) by (bit_vector);
        let s: u16 = if speed_100 { 0x2000u16 } else { 0u16 };
        let f: u16 = if full_duplex { 0x0100u16 } else { 0u16 };
        assert((s == 0 || s == 0x2000u16) && (f == 0 || f == 0x0100u16) ==> {
            let w = (v & !(0x1000u16 | 0x0400u16 | 0x2000u16 | 0x0100u16)) | s | f;
            &&& w & 0x1000u16 == 0
            &&& w & 0x0400u16 == 0
            &&& (w & 0x2000u16 != 0) == (s != 0)
            &&& (w & 0x0100u16 != 0) == (f != 0)
        }) by (bit_vector);
    }
    b
}

/// Force speed and duplex on the PHY at `phy_addr`: read BMCR, then write it
/// back with auto-negotiation off and the requested speed and duplex.
pub fn force_speed_duplex<M: MdioBus>(
    mdio: &mut M,
    phy_addr: u8,
    speed_100: bool,
    full_duplex: bool,
) -> (r: Result<()>)
    ensures
        reg_updated(
            old(mdio).transfers(),
            final(mdio).transfers(),
            phy_addr,
            phy_reg::BMCR,
            r,
            |b: u16| forced_bmcr(b, speed_100, full_duplex),
        ),
{
    let bmcr_val = mdio.read(phy_addr, phy_reg::BMCR)?;
    let v = force_bmcr_value(bmcr_val, speed_100, full_duplex);
    let w = mdio.write(phy_addr, phy_reg::BMCR, v);
    proof {
        if w is Ok {
            assert(mdio.transfers() =~= old(mdio).transfers() + seq![
                read_op(phy_addr, phy_reg::BMCR, bmcr_val),
                write_op(phy_addr, phy_reg::BMCR, v),
            ]);
        } else {
            assert(mdio.transfers() =~= old(mdio).transfers() + seq![
                read_op(phy_addr, phy_reg::BMCR, bmcr_val),
                write_failed_op(phy_addr, phy_reg::BMCR, v, w->Err_0),
            ]);
        }
    }
    w
}

} // verus!
