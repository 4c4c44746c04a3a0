//! The IEEE 802.3 clause 22 register procedures every PHY supports.
//!
//! What a PHY answers is up to the PHY: the functions here that read state
//! state what holds of every answer, and the decoding of an answer stands in
//! its own function with an exact contract.

use vstd::prelude::*;
use crate::config::{Duplex, Speed};
use crate::error::{Error, Result};
use crate::mdio::{
    anar, bmcr, bmsr, phy_reg, MdioBus, MdioOp, phy_id_of, read_op, write_op, read_failed_op,
    write_failed_op, one_read, id_read, id_read_failed, reg_updated, an_enabled_bmcr, forced_bmcr,
};
use crate::phy::generic::{LinkStatus, PhyCapabilities};

verus! {

/// Whether a BMSR value reports the link up.
pub fn link_up_in(bmsr_val: u16) -> (r: bool)
    ensures
        r == (bmsr_val & bmsr::LINK_STATUS != 0),
{
    (bmsr_val & bmsr::LINK_STATUS) != 0
}

/// Whether a BMSR value reports auto-negotiation complete.
pub fn an_complete_in(bmsr_val: u16) -> (r: bool)
    ensures
        r == (bmsr_val & bmsr::AN_COMPLETE != 0),
{
    (bmsr_val & bmsr::AN_COMPLETE) != 0
}

/// Whether a BMCR value still has the reset bit set.
pub fn reset_pending_in(bmcr_val: u16) -> (r: bool)
    ensures
        r == (bmcr_val & bmcr::RESET != 0),
{
    (bmcr_val & bmcr::RESET) != 0
}

/// Read BMSR of the PHY at `phy_addr`: whether the link is up.
pub fn is_link_up<M: MdioBus>(mdio: &mut M, phy_addr: u8) -> (r: Result<bool>)
    ensures
        r matches Ok(up) ==> exists|v: u16|
            #[trigger] one_read(old(mdio).transfers(), final(mdio).transfers(), phy_addr, phy_reg::BMSR, v)
                && up == (v & bmsr::LINK_STATUS != 0),
        r matches Err(e) ==> final(mdio).transfers() == old(mdio).transfers().push(
            read_failed_op(phy_addr, phy_reg::BMSR, e),
        ),
{
    let v = mdio.read(phy_addr, phy_reg::BMSR)?;
    proof {
        assert(one_read(old(mdio).transfers(), mdio.transfers(), phy_addr, phy_reg::BMSR, v));
    }
    Ok(link_up_in(v))
}

/// Read BMSR of the PHY at `phy_addr`: whether auto-negotiation is complete.
pub fn is_an_complete<M: MdioBus>(mdio: &mut M, phy_addr: u8) -> (r: Result<bool>)
    ensures
        r matches Ok(done) ==> exists|v: u16|
            #[trigger] one_read(old(mdio).transfers(), final(mdio).transfers(), phy_addr, phy_reg::BMSR, v)
                && done == (v & bmsr::AN_COMPLETE != 0),
        r matches Err(e) ==> final(mdio).transfers() == old(mdio).transfers().push(
            read_failed_op(phy_addr, phy_reg::BMSR, e),
        ),
{
    let v = mdio.read(phy_addr, phy_reg::BMSR)?;
    proof {
        assert(one_read(old(mdio).transfers(), mdio.transfers(), phy_addr, phy_reg::BMSR, v));
    }
    Ok(an_complete_in(v))
}

/// Reads of BMCR of the PHY at `phy` that returned `vals`, in order.
pub open spec fn bmcr_polls(phy: u8, vals: Seq<u16>) -> Seq<MdioOp> {
    vals.map_values(|v: u16| read_op(phy, phy_reg::BMCR, v))
}

/// Every BMCR value of `vals` still has the reset bit set.
pub open spec fn resetting(vals: Seq<u16>) -> bool {
    forall|i: int| 0 <= i < vals.len() ==> #[trigger] vals[i] & bmcr::RESET != 0
}

/// Polls of BMCR that end a reset wait of at most `max_attempts` polls: one
/// that saw the bit clear after polls that saw it set, or `max_attempts`
/// polls that all saw it set.
pub open spec fn reset_wait_done(vals: Seq<u16>, max_attempts: u32) -> bool {
    ||| vals.len() == max_attempts && resetting(vals)
    ||| 0 < vals.len() <= max_attempts && resetting(vals.drop_last()) && vals.last() & bmcr::RESET
        == 0
}

/// `after` is `before` followed by what a `soft_reset` of the PHY at `phy`
/// with at most `max_attempts` polls that succeeded leaves: the write of
/// BMCR.RESET and the polls that ended the wait.
pub open spec fn soft_reset_done(before: Seq<MdioOp>, after: Seq<MdioOp>, phy: u8, max_attempts: u32) -> bool {
    exists|vals: Seq<u16>|
        #![trigger bmcr_polls(phy, vals)]
        after == before.push(write_op(phy, phy_reg::BMCR, bmcr::RESET)) + bmcr_polls(phy, vals)
            && reset_wait_done(vals, max_attempts)
}

/// `after` is `before` followed by what a `soft_reset` of the PHY at `phy`
/// with at most `max_attempts` polls that failed with `e` leaves: a failed
/// write of BMCR.RESET, or the write, polls that all saw the bit set, fewer
/// than allowed, and a failed poll.
pub open spec fn soft_reset_failed(
    before: Seq<MdioOp>,
    after: Seq<MdioOp>,
    phy: u8,
    max_attempts: u32,
    e: Error,
) -> bool {
    ||| after == before.push(write_failed_op(phy, phy_reg::BMCR, bmcr::RESET, e))
    ||| exists|vals: Seq<u16>|
        #![trigger bmcr_polls(phy, vals)]
        after == (before.push(write_op(phy, phy_reg::BMCR, bmcr::RESET)) + bmcr_polls(phy, vals)).push(
            read_failed_op(phy, phy_reg::BMCR, e),
        ) && vals.len() < max_attempts && resetting(vals)
}

/// What `soft_reset` of the PHY at `phy` with at most `max_attempts` polls
/// that ended with `r` leaves after `before`.
pub open spec fn soft_reset_logged(
    before: Seq<MdioOp>,
    after: Seq<MdioOp>,
    phy: u8,
    max_attempts: u32,
    r: Result<()>,
) -> bool {
    &&& r is Ok ==> soft_reset_done(before, after, phy, max_attempts)
    &&& r matches Err(e) ==> soft_reset_failed(before, after, phy, max_attempts, e)
}

/// Software reset: write BMCR.RESET, then read BMCR until the bit clears,
/// at most `max_attempts` times. A reset that has not completed by then is
/// not an error: some PHYs are slow to clear the bit.
pub fn soft_reset<M: MdioBus>(mdio: &mut M, phy_addr: u8, max_attempts: u32) -> (r: Result<()>)
    ensures
        soft_reset_logged(old(mdio).transfers(), final(mdio).transfers(), phy_addr, max_attempts, r),
{
    mdio.write(phy_addr, phy_reg::BMCR, bmcr::RESET)?;
    let ghost start = mdio.transfers();
    let ghost mut vals: Seq<u16> = Seq::empty();
    let mut i: u32 = 0;
    proof {
        assert(bmcr_polls(phy_addr, vals) =~= Seq::<MdioOp>::empty());
        assert(mdio.transfers() =~= start + bmcr_polls(phy_addr, vals));
    }
    while i < max_attempts
        invariant
            i <= max_attempts,
            vals.len() == i,
            resetting(vals),
            start == old(mdio).transfers().push(write_op(phy_addr, phy_reg::BMCR, bmcr::RESET)),
            mdio.transfers() == start + bmcr_polls(phy_addr, vals),
        decreases max_attempts - i,
    {
        let ghost prev = mdio.transfers();
        let v = match mdio.read(phy_addr, phy_reg::BMCR) {
            Ok(v) => v,
            Err(e) => {
                proof {
                    assert(mdio.transfers() == (start + bmcr_polls(phy_addr, vals)).push(
                        read_failed_op(phy_addr, phy_reg::BMCR, e),
                    ));
                }
                return Err(e);
            },
        };
        proof {
            let nv = vals.push(v);
            assert(bmcr_polls(phy_addr, nv) =~= bmcr_polls(phy_addr, vals).push(read_op(phy_addr, phy_reg::BMCR, v)));
            assert(mdio.transfers() =~= start + bmcr_polls(phy_addr, nv));
            assert(nv.drop_last() =~= vals);
            vals = nv;
        }
        if !reset_pending_in(v) {
            return Ok(());
        }
        i = i + 1;
    }
    Ok(())
}

/// Enable and restart auto-negotiation: read BMCR, then write it back with
/// AN enabled and restarted and isolation cleared.
pub fn enable_auto_negotiation<M: MdioBus>(mdio: &mut M, phy_addr: u8) -> (r: Result<()>)
    ensures
        reg_updated(
            old(mdio).transfers(),
            final(mdio).transfers(),
            phy_addr,
            phy_reg::BMCR,
            r,
            |b: u16| an_enabled_bmcr(b),
        ),
{
    crate::mdio::enable_auto_negotiation(mdio, phy_addr)
}

/// Force the speed and duplex of `status`: read BMCR, then write it back with
/// auto-negotiation off.
pub fn force_link<M: MdioBus>(mdio: &mut M, phy_addr: u8, status: LinkStatus) -> (r: Result<()>)
    ensures
        reg_updated(
            old(mdio).transfers(),
            final(mdio).transfers(),
            phy_addr,
            phy_reg::BMCR,
            r,
            |b: u16| forced_bmcr(b, status.speed == Speed::Mbps100, status.duplex == Duplex::Full),
        ),
{
    let speed_100 = match status.speed {
        Speed::Mbps100 => true,
        Speed::Mbps10 => false,
    };
    let full = match status.duplex {
        Duplex::Full => true,
        Duplex::Half => false,
    };
    let r = crate::mdio::force_speed_duplex(mdio, phy_addr, speed_100, full);
    proof {
        let f1 = |b: u16| forced_bmcr(b, speed_100, full);
        let f2 = |b: u16| forced_bmcr(b, status.speed == Speed::Mbps100, status.duplex == Duplex::Full);
        assert(f1 =~= f2);
    }
    r
}

/// Read PHYIDR1, then PHYIDR2: the 32-bit PHY identifier.
pub fn read_phy_id<M: MdioBus>(mdio: &mut M, phy_addr: u8) -> (r: Result<u32>)
    ensures
        r matches Ok(id) ==> exists|id1: u16, id2: u16|
            #![trigger id_read(old(mdio).transfers(), final(mdio).transfers(), phy_addr, id1, id2)]
            id == phy_id_of(id1, id2) && id_read(
                old(mdio).transfers(),
                final(mdio).transfers(),
                phy_addr,
                id1,
                id2,
            ),
        r matches Err(e) ==> id_read_failed(old(mdio).transfers(), final(mdio).transfers(), phy_addr, e),
{
    crate::mdio::read_phy_id(mdio, phy_addr)
}

/// The capabilities a BMSR value `v` reports; PAUSE is not in BMSR.
pub open spec fn bmsr_capabilities(v: u16) -> PhyCapabilities {
    PhyCapabilities {
        speed_100_fd: v & bmsr::TX_FD_CAPABLE != 0,
        speed_100_hd: v & bmsr::TX_HD_CAPABLE != 0,
        speed_10_fd: v & bmsr::T10_FD_CAPABLE != 0,
        speed_10_hd: v & bmsr::T10_HD_CAPABLE != 0,
        auto_negotiation: v & bmsr::AN_ABILITY != 0,
        pause: false,
        pause_asymmetric: false,
    }
}

/// The capabilities a BMSR value reports.
pub fn capabilities_from_bmsr(v: u16) -> (r: PhyCapabilities)
    ensures
        r == bmsr_capabilities(v),
{
    PhyCapabilities {
        speed_100_fd: (v & bmsr::TX_FD_CAPABLE) != 0,
        speed_100_hd: (v & bmsr::TX_HD_CAPABLE) != 0,
        speed_10_fd: (v & bmsr::T10_FD_CAPABLE) != 0,
        speed_10_hd: (v & bmsr::T10_HD_CAPABLE) != 0,
        auto_negotiation: (v & bmsr::AN_ABILITY) != 0,
        pause: false,
        pause_asymmetric: false,
    }
}

/// Read BMSR: what the PHY supports.
pub fn read_capabilities<M: MdioBus>(mdio: &mut M, phy_addr: u8) -> (r: Result<PhyCapabilities>)
    ensures
        r matches Ok(c) ==> exists|v: u16|
            #[trigger] one_read(old(mdio).transfers(), final(mdio).transfers(), phy_addr, phy_reg::BMSR, v)
                && c == bmsr_capabilities(v),
        r matches Err(e) ==> final(mdio).transfers() == old(mdio).transfers().push(
            read_failed_op(phy_addr, phy_reg::BMSR, e),
        ),
{
    let v = mdio.read(phy_addr, phy_reg::BMSR)?;
    proof {
        assert(one_read(old(mdio).transfers(), mdio.transfers(), phy_addr, phy_reg::BMSR, v));
    }
    Ok(capabilities_from_bmsr(v))
}

/// The abilities an ANLPAR value `v` reports: a partner that answered
/// auto-negotiation supports it.
pub open spec fn anlpar_capabilities(v: u16) -> PhyCapabilities {
    PhyCapabilities {
        speed_100_fd: v & anar::TX_FD != 0,
        speed_100_hd: v & anar::TX_HD != 0,
        speed_10_fd: v & anar::T10_FD != 0,
        speed_10_hd: v & anar::T10_HD != 0,
        auto_negotiation: true,
        pause: v & anar::PAUSE != 0,
        pause_asymmetric: false,
    }
}

/// The abilities an ANLPAR value reports.
pub fn capabilities_from_anlpar(v: u16) -> (r: PhyCapabilities)
    ensures
        r == anlpar_capabilities(v),
{
    PhyCapabilities {
        speed_100_fd: (v & anar::TX_FD) != 0,
        speed_100_hd: (v & anar::TX_HD) != 0,
        speed_10_fd: (v & anar::T10_FD) != 0,
        speed_10_hd: (v & anar::T10_HD) != 0,
        auto_negotiation: true,
        pause: (v & anar::PAUSE) != 0,
        pause_asymmetric: false,
    }
}

/// Read ANLPAR: what the link partner advertised.
pub fn read_link_partner<M: MdioBus>(mdio: &mut M, phy_addr: u8) -> (r: Result<PhyCapabilities>)
    ensures
        r matches Ok(c) ==> exists|v: u16|
            #[trigger] one_read(old(mdio).transfers(), final(mdio).transfers(), phy_addr, phy_reg::ANLPAR, v)
                && c == anlpar_capabilities(v),
        r matches Err(e) ==> final(mdio).transfers() == old(mdio).transfers().push(
            read_failed_op(phy_addr, phy_reg::ANLPAR, e),
        ),
{
    let v = mdio.read(phy_addr, phy_reg::ANLPAR)?;
    proof {
        assert(one_read(old(mdio).transfers(), mdio.transfers(), phy_addr, phy_reg::ANLPAR, v));
    }
    Ok(capabilities_from_anlpar(v))
}

/// The speed and duplex selected in a BMCR value `v`.
pub open spec fn bmcr_link(v: u16) -> LinkStatus {
    LinkStatus {
        speed: if v & bmcr::SPEED_100 != 0 {
            Speed::Mbps100
        } else {
            Speed::Mbps10
        },
        duplex: if v & bmcr::DUPLEX_FULL != 0 {
            Duplex::Full
        } else {
            Duplex::Half
        },
    }
}

/// The speed and duplex selected in a BMCR value.
pub fn link_from_bmcr(v: u16) -> (r: LinkStatus)
    ensures
        r == bmcr_link(v),
{
    let speed = if (v & bmcr::SPEED_100) != 0 {
        Speed::Mbps100
    } else {
        Speed::Mbps10
    };
    let duplex = if (v & bmcr::DUPLEX_FULL) != 0 {
        Duplex::Full
    } else {
        Duplex::Half
    };
    LinkStatus::new(speed, duplex)
}

/// Read BMCR: the selected speed and duplex.
pub fn link_status_from_bmcr<M: MdioBus>(mdio: &mut M, phy_addr: u8) -> (r: Result<LinkStatus>)
    ensures
        r matches Ok(st) ==> exists|v: u16|
            #[trigger] one_read(old(mdio).transfers(), final(mdio).transfers(), phy_addr, phy_reg::BMCR, v)
                && st == bmcr_link(v),
        r matches Err(e) ==> final(mdio).transfers() == old(mdio).transfers().push(
            read_failed_op(phy_addr, phy_reg::BMCR, e),
        ),
{
    let v = mdio.read(phy_addr, phy_reg::BMCR)?;
    proof {
        assert(one_read(old(mdio).transfers(), mdio.transfers(), phy_addr, phy_reg::BMCR, v));
    }
    Ok(link_from_bmcr(v))
}

} // verus!
