//! Microchip LAN8720A 10/100 RMII PHY.

pub mod reg;
pub mod mcsr;
pub mod smr;
pub mod scsir;
pub mod isr;
pub mod pscsr;

use vstd::prelude::*;
use crate::error::{Error, Result};
use crate::mdio::{
    anar, phy_reg, MdioBus, MdioOp, phy_id_of, read_op, write_op, read_failed_op, write_failed_op,
    one_read, id_read, id_read_failed, reg_updated, an_enabled_bmcr, forced_bmcr,
};
use crate::config::{Duplex, Speed};
use crate::phy::generic::{LinkStatus, PhyCapabilities, PhyDriver, standard_capabilities};
use crate::phy::ieee802_3;

verus! {

/// LAN8720A PHY identifier (OUI and model, revision bits clear)
pub const LAN8720A_PHY_ID: u32 = 0x0007_C0F0;
/// Mask of the identifier bits that name the model (revision bits clear)
pub const LAN8720A_PHY_ID_MASK: u32 = 0xFFFF_FFF0;
/// BMCR polls allowed for a software reset to complete
pub const RESET_MAX_ATTEMPTS: u32 = 1000;
/// Link polls `wait_for_link` makes before giving up
pub const AN_MAX_ATTEMPTS: u32 = 5000;
/// Width of the hardware reset pulse in microseconds
pub const RESET_PULSE_US: u32 = 200;
/// Time to wait after a hardware reset in microseconds
pub const RESET_RECOVERY_US: u32 = 1000;

/// The link parameters a PSCSR value `v` reports: none until
/// auto-negotiation is done or for an unknown speed indication.
pub open spec fn pscsr_link(v: u16) -> Option<LinkStatus> {
    if v & pscsr::AUTODONE == 0 {
        None
    } else if v & pscsr::HCDSPEED_MASK == pscsr::HCDSPEED_100FD {
        Some(LinkStatus { speed: Speed::Mbps100, duplex: Duplex::Full })
    } else if v & pscsr::HCDSPEED_MASK == pscsr::HCDSPEED_100HD {
        Some(LinkStatus { speed: Speed::Mbps100, duplex: Duplex::Half })
    } else if v & pscsr::HCDSPEED_MASK == pscsr::HCDSPEED_10FD {
        Some(LinkStatus { speed: Speed::Mbps10, duplex: Duplex::Full })
    } else if v & pscsr::HCDSPEED_MASK == pscsr::HCDSPEED_10HD {
        Some(LinkStatus { speed: Speed::Mbps10, duplex: Duplex::Half })
    } else {
        None
    }
}

/// `bit` if `flag` is set, 0 otherwise.
pub open spec fn flag_bit(flag: bool, bit: u16) -> u16 {
    if flag {
        bit
    } else {
        0
    }
}

/// The ANAR value advertising `c`, with the IEEE 802.3 selector.
pub open spec fn advertisement(c: PhyCapabilities) -> u16 {
    anar::SELECTOR_IEEE802_3 | flag_bit(c.speed_100_fd, anar::TX_FD) | flag_bit(
        c.speed_100_hd,
        anar::TX_HD,
    ) | flag_bit(c.speed_10_fd, anar::T10_FD) | flag_bit(c.speed_10_hd, anar::T10_HD) | flag_bit(
        c.pause,
        anar::PAUSE,
    )
}

/// The LAN8720A is recognised in every revision, and an identifier is
/// recognised exactly when it is the LAN8720A identifier with some revision
/// in its low four bits.
pub proof fn lemma_lan8720a_any_revision(id: u32, rev: u32)
    requires
        rev < 16,
    ensures
        is_lan8720a_id(LAN8720A_PHY_ID | rev),
        is_lan8720a_id(id) == (id == LAN8720A_PHY_ID | (id & 0xF)),
{
    assert(rev < 16 ==> (0x0007_C0F0u32 | rev) & 0xFFFF_FFF0u32 == 0x0007_C0F0u32) by (bit_vector);
    assert((id & 0xFFFF_FFF0u32 == 0x0007_C0F0u32) == (id == 0x0007_C0F0u32 | (id & 0xFu32)))
        by (bit_vector);
}

/// Whether a 32-bit identifier names the LAN8720A, any revision.
pub open spec fn is_lan8720a_id(id: u32) -> bool {
    id & LAN8720A_PHY_ID_MASK == LAN8720A_PHY_ID
}

/// Whether a 32-bit identifier names the LAN8720A, any revision.
pub fn is_lan8720a(id: u32) -> (r: bool)
    ensures
        r == is_lan8720a_id(id),
{
    (id & LAN8720A_PHY_ID_MASK) == LAN8720A_PHY_ID
}

/// The link parameters a PSCSR value reports.
pub fn link_from_pscsr(v: u16) -> (r: Option<LinkStatus>)
    ensures
        r == pscsr_link(v),
{
    if (v & pscsr::AUTODONE) == 0 {
        return None;
    }
    let speed_bits = v & pscsr::HCDSPEED_MASK;
    if speed_bits == pscsr::HCDSPEED_100FD {
        Some(LinkStatus::fast_full())
    } else if speed_bits == pscsr::HCDSPEED_100HD {
        Some(LinkStatus::fast_half())
    } else if speed_bits == pscsr::HCDSPEED_10FD {
        Some(LinkStatus::slow_full())
    } else if speed_bits == pscsr::HCDSPEED_10HD {
        Some(LinkStatus::slow_half())
    } else {
        None
    }
}

/// The MCSR value `v` with energy-detect power-down set if `enabled`,
/// cleared otherwise.
pub open spec fn powerdown_mcsr(v: u16, enabled: bool) -> u16 {
    if enabled {
        v | mcsr::EDPWRDOWN
    } else {
        v & !mcsr::EDPWRDOWN
    }
}

/// An MCSR value `v` with energy-detect power-down set if `enabled`,
/// cleared otherwise.
pub fn mcsr_with_powerdown(v: u16, enabled: bool) -> (r: u16)
    ensures
        r == powerdown_mcsr(v, enabled),
{
    if enabled {
        v | mcsr::EDPWRDOWN
    } else {
        v & !mcsr::EDPWRDOWN
    }
}

/// Whether an MCSR value reports energy on the line.
pub fn energy_on_in(v: u16) -> (r: bool)
    ensures
        r == (v & mcsr::ENERGYON != 0),
{
    (v & mcsr::ENERGYON) != 0
}

/// The ANAR value advertising `caps`.
pub fn advertisement_word(caps: &PhyCapabilities) -> (r: u16)
    ensures
        r == advertisement(*caps),
{
    let a = if caps.speed_100_fd {
        anar::TX_FD
    } else {
        0
    };
    let b = if caps.speed_100_hd {
        anar::TX_HD
    } else {
        0
    };
    let c = if caps.speed_10_fd {
        anar::T10_FD
    } else {
        0
    };
    let d = if caps.speed_10_hd {
        anar::T10_HD
    } else {
        0
    };
    let e = if caps.pause {
        anar::PAUSE
    } else {
        0
    };
    anar::SELECTOR_IEEE802_3 | a | b | c | d | e
}

/// LAN8720A driver.
#[derive(Debug)]
pub struct Lan8720a {
    /// MDIO address
    pub addr: u8,
    /// Link state seen by the last `poll_link`
    pub last_link_up: bool,
}

impl Lan8720a {
    /// The PHY's MDIO address.
    pub open spec fn phy_addr(&self) -> u8 {
        self.addr
    }

    /// Driver for the PHY at `addr`, link taken as down.
    pub fn new(addr: u8) -> (r: Self)
        ensures
            r.phy_addr() == addr,
            !r.last_link_up,
    {
        Lan8720a { addr, last_link_up: false }
    }

    /// Read the identifier: whether it names the LAN8720A.
    pub fn verify_id<M: MdioBus>(&self, mdio: &mut M) -> (r: Result<bool>)
        ensures
            r matches Ok(b) ==> exists|id1: u16, id2: u16|
                #![trigger id_read(old(mdio).transfers(), final(mdio).transfers(), self.addr, id1, id2)]
                b == is_lan8720a_id(phy_id_of(id1, id2)) && id_read(
                    old(mdio).transfers(),
                    final(mdio).transfers(),
                    self.addr,
                    id1,
                    id2,
                ),
            r matches Err(e) ==> id_read_failed(old(mdio).transfers(), final(mdio).transfers(), self.addr, e),
    {
        let id = ieee802_3::read_phy_id(mdio, self.addr)?;
        Ok(is_lan8720a(id))
    }

    /// Read the identifier: its revision bits.
    pub fn revision<M: MdioBus>(&self, mdio: &mut M) -> (r: Result<u8>)
        ensures
            r matches Ok(rev) ==> rev < 16 && exists|id1: u16, id2: u16|
                #![trigger id_read(old(mdio).transfers(), final(mdio).transfers(), self.addr, id1, id2)]
                rev == phy_id_of(id1, id2) & 0x0F && id_read(
                    old(mdio).transfers(),
                    final(mdio).transfers(),
                    self.addr,
                    id1,
                    id2,
                ),
            r matches Err(e) ==> id_read_failed(old(mdio).transfers(), final(mdio).transfers(), self.addr, e),
    {
        let id = ieee802_3::read_phy_id(mdio, self.addr)?;
        let rev = id & 0x0F;
        proof {
            assert(rev <= 0x0F) by (bit_vector)
                requires
                    rev == id & 0x0F,
            ;
        }
        Ok(rev as u8)
    }

    /// Read PSCSR: the negotiated speed and duplex, if auto-negotiation is
    /// done.
    pub fn read_speed_indication<M: MdioBus>(&self, mdio: &mut M) -> (r: Result<Option<LinkStatus>>)
        ensures
            r matches Ok(o) ==> exists|v: u16|
                #[trigger] one_read(old(mdio).transfers(), final(mdio).transfers(), self.addr, reg::PSCSR, v)
                    && o == pscsr_link(v),
            r matches Err(e) ==> final(mdio).transfers() == old(mdio).transfers().push(
                read_failed_op(self.addr, reg::PSCSR, e),
            ),
    {
        let v = mdio.read(self.addr, reg::PSCSR)?;
        proof {
            assert(one_read(old(mdio).transfers(), mdio.transfers(), self.addr, reg::PSCSR, v));
        }
        Ok(link_from_pscsr(v))
    }

    /// Enable or disable energy-detect power-down: read MCSR, then write it
    /// back with EDPWRDOWN set or cleared.
    pub fn set_energy_detect_powerdown<M: MdioBus>(&mut self, mdio: &mut M, enabled: bool) -> (r:
        Result<()>)
        ensures
            *final(self) == *old(self),
            reg_updated(
                old(mdio).transfers(),
                final(mdio).transfers(),
                old(self).addr,
                reg::MCSR,
                r,
                |b: u16| powerdown_mcsr(b, enabled),
            ),
    {
        let v = mdio.read(self.addr, reg::MCSR)?;
        let w = mdio.write(self.addr, reg::MCSR, mcsr_with_powerdown(v, enabled));
        proof {
            if w is Err {
                assert(mdio.transfers() =~= old(mdio).transfers() + seq![
                    read_op(self.addr, reg::MCSR, v),
                    write_failed_op(self.addr, reg::MCSR, powerdown_mcsr(v, enabled), w->Err_0),
                ]);
            } else {
                assert(mdio.transfers() =~= old(mdio).transfers() + seq![
                    read_op(self.addr, reg::MCSR, v),
                    write_op(self.addr, reg::MCSR, powerdown_mcsr(v, enabled)),
                ]);
            }
        }
        w
    }

    /// Read MCSR: whether energy is detected on the line.
    pub fn is_energy_on<M: MdioBus>(&self, mdio: &mut M) -> (r: Result<bool>)
        ensures
            r matches Ok(on) ==> exists|v: u16|
                #[trigger] one_read(old(mdio).transfers(), final(mdio).transfers(), self.addr, reg::MCSR, v)
                    && on == (v & mcsr::ENERGYON != 0),
            r matches Err(e) ==> final(mdio).transfers() == old(mdio).transfers().push(
                read_failed_op(self.addr, reg::MCSR, e),
            ),
    {
        let v = mdio.read(self.addr, reg::MCSR)?;
        proof {
            assert(one_read(old(mdio).transfers(), mdio.transfers(), self.addr, reg::MCSR, v));
        }
        Ok(energy_on_in(v))
    }

    /// Read the interrupt source register (reading clears it).
    pub fn read_interrupt_status<M: MdioBus>(&self, mdio: &mut M) -> (r: Result<u16>)
        ensures
            r matches Ok(v) ==> one_read(old(mdio).transfers(), final(mdio).transfers(), self.addr, reg::ISR, v),
            r matches Err(e) ==> final(mdio).transfers() == old(mdio).transfers().push(
                read_failed_op(self.addr, reg::ISR, e),
            ),
    {
        mdio.read(self.addr, reg::ISR)
    }

    /// Write the interrupt mask register.
    pub fn set_interrupt_mask<M: MdioBus>(&mut self, mdio: &mut M, mask: u16) -> (r: Result<()>)
        ensures
            *final(self) == *old(self),
            r is Ok ==> final(mdio).transfers() == old(mdio).transfers().push(
                write_op(old(self).addr, reg::IMR, mask),
            ),
            r matches Err(e) ==> final(mdio).transfers() == old(mdio).transfers().push(
                write_failed_op(old(self).addr, reg::IMR, mask, e),
            ),
    {
        mdio.write(self.addr, reg::IMR, mask)
    }

    /// Unmask the link-down and auto-negotiation-complete interrupts.
    pub fn enable_link_interrupt<M: MdioBus>(&mut self, mdio: &mut M) -> (r: Result<()>)
        ensures
            *final(self) == *old(self),
            r is Ok ==> final(mdio).transfers() == old(mdio).transfers().push(
                write_op(old(self).addr, reg::IMR, isr::LINK_DOWN | isr::AN_COMPLETE),
            ),
            r matches Err(e) ==> final(mdio).transfers() == old(mdio).transfers().push(
                write_failed_op(old(self).addr, reg::IMR, isr::LINK_DOWN | isr::AN_COMPLETE, e),
            ),
    {
        let mask = isr::LINK_DOWN | isr::AN_COMPLETE;
        self.set_interrupt_mask(mdio, mask)
    }

    /// Read the symbol error counter.
    pub fn symbol_error_count<M: MdioBus>(&self, mdio: &mut M) -> (r: Result<u16>)
        ensures
            r matches Ok(v) ==> one_read(old(mdio).transfers(), final(mdio).transfers(), self.addr, reg::SECR, v),
            r matches Err(e) ==> final(mdio).transfers() == old(mdio).transfers().push(
                read_failed_op(self.addr, reg::SECR, e),
            ),
    {
        mdio.read(self.addr, reg::SECR)
    }

    /// Write ANAR to advertise `caps`.
    pub fn configure_advertisement<M: MdioBus>(&mut self, mdio: &mut M, caps: &PhyCapabilities) -> (r:
        Result<()>)
        ensures
            *final(self) == *old(self),
            r is Ok ==> final(mdio).transfers() == old(mdio).transfers().push(
                write_op(old(self).addr, phy_reg::ANAR, advertisement(*caps)),
            ),
            r matches Err(e) ==> final(mdio).transfers() == old(mdio).transfers().push(
                write_failed_op(old(self).addr, phy_reg::ANAR, advertisement(*caps), e),
            ),
    {
        let anar_val = advertisement_word(caps);
        mdio.write(self.addr, phy_reg::ANAR, anar_val)
    }
}

/// `after` is `before` followed by a read of BMSR that returned `v` and one
/// of PSCSR that returned `p`, of the PHY at `phy`.
pub open spec fn link_read(before: Seq<MdioOp>, after: Seq<MdioOp>, phy: u8, v: u16, p: u16) -> bool {
    after == before + seq![read_op(phy, phy_reg::BMSR, v), read_op(phy, reg::PSCSR, p)]
}

/// `after` is `before` followed by a read of BMSR that returned `v` and a
/// read of PSCSR that failed with `e`, of the PHY at `phy`.
pub open spec fn link_read_failed(before: Seq<MdioOp>, after: Seq<MdioOp>, phy: u8, v: u16, e: Error) -> bool {
    after == before + seq![read_op(phy, phy_reg::BMSR, v), read_failed_op(phy, reg::PSCSR, e)]
}

/// The transfers with which `enable_auto_negotiation` of the PHY at `phy`
/// succeeds, BMCR having read `b`: ANAR written with every 10/100 mode and
/// PAUSE, BMCR read, and written back with auto-negotiation enabled and
/// restarted.
pub open spec fn an_setup(phy: u8, b: u16) -> Seq<MdioOp> {
    seq![
        write_op(phy, phy_reg::ANAR, advertisement(standard_capabilities())),
        read_op(phy, phy_reg::BMCR, b),
        write_op(phy, phy_reg::BMCR, an_enabled_bmcr(b)),
    ]
}

/// The transfers with which `init` of the PHY at `phy` succeeds, BMCR having
/// read `vals` while the reset completed, MCSR `m` and BMCR `b` afterwards:
/// the software reset, energy-detect power-down cleared, and
/// auto-negotiation set up.
pub open spec fn init_transfers(phy: u8, vals: Seq<u16>, m: u16, b: u16) -> Seq<MdioOp> {
    seq![write_op(phy, phy_reg::BMCR, crate::mdio::bmcr::RESET)] + ieee802_3::bmcr_polls(phy, vals)
        + seq![read_op(phy, reg::MCSR, m), write_op(phy, reg::MCSR, powerdown_mcsr(m, false))]
        + an_setup(phy, b)
}

/// What a poll of the link of the PHY at `phy` that ended with `r` leaves
/// after `before`, the link having been taken as up (`was_up`) before and
/// `now_up` after: BMSR read; on a change from down to up, PSCSR read too
/// and the negotiated link reported; otherwise nothing reported. On failure
/// the read of BMSR failed and the link state is unchanged, or BMSR showed
/// the link come up and the read of PSCSR failed.
pub open spec fn link_polled(
    before: Seq<MdioOp>,
    after: Seq<MdioOp>,
    phy: u8,
    was_up: bool,
    now_up: bool,
    r: Result<Option<LinkStatus>>,
) -> bool {
    &&& r matches Ok(o) ==> (exists|v: u16|
        #[trigger] one_read(before, after, phy, phy_reg::BMSR, v) && o is None && now_up == (v
            & crate::mdio::bmsr::LINK_STATUS != 0) && !(v & crate::mdio::bmsr::LINK_STATUS != 0 && !was_up))
        || (exists|v: u16, p: u16|
        #[trigger] link_read(before, after, phy, v, p) && v & crate::mdio::bmsr::LINK_STATUS != 0
            && !was_up && now_up && o == pscsr_link(p))
    &&& r matches Err(e) ==> (after == before.push(read_failed_op(phy, phy_reg::BMSR, e)) && now_up == was_up)
        || exists|v: u16|
        #[trigger] link_read_failed(before, after, phy, v, e) && v & crate::mdio::bmsr::LINK_STATUS != 0
            && !was_up && now_up
}

/// A poll seen as the transfers it added.
pub proof fn lemma_poll_segment(
    before: Seq<MdioOp>,
    after: Seq<MdioOp>,
    phy: u8,
    was_up: bool,
    now_up: bool,
    r: Result<Option<LinkStatus>>,
)
    requires
        link_polled(before, after, phy, was_up, now_up, r),
    ensures
        after == before + after.subrange(before.len() as int, after.len() as int),
        link_polled(
            Seq::empty(),
            after.subrange(before.len() as int, after.len() as int),
            phy,
            was_up,
            now_up,
            r,
        ),
{
    let seg = after.subrange(before.len() as int, after.len() as int);
    if r is Ok {
        let o = r->Ok_0;
        if exists|v: u16|
            #[trigger] one_read(before, after, phy, phy_reg::BMSR, v) && o is None && now_up == (v
                & crate::mdio::bmsr::LINK_STATUS != 0) && !(v & crate::mdio::bmsr::LINK_STATUS != 0
                && !was_up) {
            let v = choose|v: u16|
                #[trigger] one_read(before, after, phy, phy_reg::BMSR, v) && o is None && now_up == (v
                    & crate::mdio::bmsr::LINK_STATUS != 0) && !(v & crate::mdio::bmsr::LINK_STATUS != 0
                    && !was_up);
            assert(seg =~= seq![read_op(phy, phy_reg::BMSR, v)]);
            assert(one_read(Seq::empty(), seg, phy, phy_reg::BMSR, v));
        } else {
            let (v, p) = choose|v: u16, p: u16|
                #[trigger] link_read(before, after, phy, v, p) && v & crate::mdio::bmsr::LINK_STATUS != 0
                    && !was_up && now_up && o == pscsr_link(p);
            assert(seg =~= seq![read_op(phy, phy_reg::BMSR, v), read_op(phy, reg::PSCSR, p)]);
            assert(link_read(Seq::empty(), seg, phy, v, p));
        }
    } else {
        let e = r->Err_0;
        if after == before.push(read_failed_op(phy, phy_reg::BMSR, e)) && now_up == was_up {
            assert(seg =~= Seq::<MdioOp>::empty().push(read_failed_op(phy, phy_reg::BMSR, e)));
        } else {
            let v = choose|v: u16|
                #[trigger] link_read_failed(before, after, phy, v, e) && v & crate::mdio::bmsr::LINK_STATUS
                    != 0 && !was_up && now_up;
            assert(seg =~= seq![read_op(phy, phy_reg::BMSR, v), read_failed_op(phy, reg::PSCSR, e)]);
            assert(link_read_failed(Seq::empty(), seg, phy, v, e));
        }
    }
    assert(after =~= before + seg);
}

/// A poll reports a link exactly on a change from down to up: then it
/// reports what PSCSR read, otherwise nothing.
pub proof fn lemma_poll_reports_rising_edge(
    before: Seq<MdioOp>,
    after: Seq<MdioOp>,
    phy: u8,
    was_up: bool,
    now_up: bool,
    o: Option<LinkStatus>,
)
    requires
        link_polled(before, after, phy, was_up, now_up, Ok(o)),
    ensures
        o is Some ==> !was_up && now_up,
        !was_up && now_up ==> exists|v: u16, p: u16|
            #[trigger] link_read(before, after, phy, v, p) && o == pscsr_link(p),
        !(!was_up && now_up) ==> o is None,
{
}

/// How many times `ups` goes from down to up between neighbours.
pub open spec fn rising_edges(ups: Seq<bool>) -> nat
    decreases ups.len(),
{
    if ups.len() < 2 {
        0
    } else {
        rising_edges(ups.drop_last()) + (if !ups[ups.len() - 2] && ups.last() {
            1nat
        } else {
            0nat
        })
    }
}

/// How many of `rs` report a link.
pub open spec fn reports(rs: Seq<Option<LinkStatus>>) -> nat
    decreases rs.len(),
{
    if rs.len() == 0 {
        0
    } else {
        reports(rs.drop_last()) + (if rs.last() is Some {
            1nat
        } else {
            0nat
        })
    }
}

/// PSCSR, read in the poll that added `seg`, reported a negotiated link.
pub open spec fn pscsr_reported(seg: Seq<MdioOp>, phy: u8) -> bool {
    exists|v: u16, p: u16| #[trigger] link_read(Seq::empty(), seg, phy, v, p) && pscsr_link(p) is Some
}

/// Over successive successful polls, each adding `segs[i]`, returning
/// `rs[i]` and taking the link from `ups[i]` to `ups[i + 1]`, at most one
/// link is reported per change from down to up, and exactly one when PSCSR
/// reported the negotiated link at each such change.
pub proof fn lemma_polls_report_each_rise_once(
    segs: Seq<Seq<MdioOp>>,
    ups: Seq<bool>,
    rs: Seq<Option<LinkStatus>>,
    phy: u8,
)
    requires
        segs.len() == rs.len(),
        ups.len() == rs.len() + 1,
        forall|i: int|
            0 <= i < rs.len() ==> link_polled(
                Seq::empty(),
                #[trigger] segs[i],
                phy,
                ups[i],
                ups[i + 1],
                Ok(rs[i]),
            ),
    ensures
        reports(rs) <= rising_edges(ups),
        (forall|i: int| 0 <= i < rs.len() && !ups[i] && ups[i + 1] ==> pscsr_reported(#[trigger] segs[i], phy))
            ==> reports(rs) == rising_edges(ups),
    decreases rs.len(),
{
    if rs.len() > 0 {
        let k = rs.len() - 1;
        let segs2 = segs.drop_last();
        let ups2 = ups.drop_last();
        let rs2 = rs.drop_last();
        assert forall|i: int| 0 <= i < rs2.len() implies link_polled(
            Seq::empty(),
            #[trigger] segs2[i],
            phy,
            ups2[i],
            ups2[i + 1],
            Ok(rs2[i]),
        ) by {
            assert(segs2[i] == segs[i]);
        }
        lemma_polls_report_each_rise_once(segs2, ups2, rs2, phy);
        assert(link_polled(Seq::empty(), segs[k], phy, ups[k], ups[k + 1], Ok(rs[k])));
        lemma_poll_reports_rising_edge(Seq::empty(), segs[k], phy, ups[k], ups[k + 1], rs[k]);
        assert(ups[ups.len() - 2] == ups[k] && ups.last() == ups[k + 1]);
        if forall|i: int| 0 <= i < rs.len() && !ups[i] && ups[i + 1] ==> pscsr_reported(#[trigger] segs[i], phy) {
            assert forall|i: int| 0 <= i < rs2.len() && !ups2[i] && ups2[i + 1] implies pscsr_reported(
                #[trigger] segs2[i],
                phy,
            ) by {
                assert(segs2[i] == segs[i]);
                assert(pscsr_reported(segs[i], phy));
            }
            if !ups[k] && ups[k + 1] {
                assert(pscsr_reported(segs[k], phy));
                let (v, p) = choose|v: u16, p: u16|
                    #[trigger] link_read(Seq::empty(), segs[k], phy, v, p) && pscsr_link(p) is Some;
                let (v2, p2) = choose|v2: u16, p2: u16|
                    #[trigger] link_read(Seq::empty(), segs[k], phy, v2, p2) && rs[k] == pscsr_link(p2);
                assert(segs[k][1] == read_op(phy, reg::PSCSR, p));
                assert(segs[k][1] == read_op(phy, reg::PSCSR, p2));
            }
        }
    }
}

impl PhyDriver for Lan8720a {
    /// The PHY's MDIO address.
    fn address(&self) -> (r: u8)
        ensures
            r == self.phy_addr(),
    {
        self.addr
    }

    /// Software reset, energy-detect power-down off, auto-negotiation with
    /// every 10/100 mode advertised; the link is then taken as down. On
    /// failure the steps stop at the first transfer that failed.
    fn init<M: MdioBus>(&mut self, mdio: &mut M) -> (r: Result<()>)
        ensures
            final(self).phy_addr() == old(self).phy_addr(),
            r is Ok ==> !final(self).last_link_up,
            r is Ok ==> exists|vals: Seq<u16>, m: u16, b: u16|
                #![trigger init_transfers(old(self).addr, vals, m, b)]
                ieee802_3::reset_wait_done(vals, RESET_MAX_ATTEMPTS) && final(mdio).transfers()
                    == old(mdio).transfers() + init_transfers(old(self).addr, vals, m, b),
            r matches Err(e) ==> init_failed(old(mdio).transfers(), final(mdio).transfers(), old(self).addr, e),
    {
        let ghost t0 = mdio.transfers();
        let addr = self.addr;
        if let Err(e) = self.soft_reset(mdio) {
            return Err(e);
        }
        let ghost t1 = mdio.transfers();
        proof {
            assert(ieee802_3::soft_reset_done(t0, t1, addr, RESET_MAX_ATTEMPTS));
        }
        if let Err(e) = self.set_energy_detect_powerdown(mdio, false) {
            proof {
                if mdio.transfers() != t1.push(read_failed_op(addr, reg::MCSR, e)) {
                    let m = choose|m: u16|
                        #![trigger read_op(addr, reg::MCSR, m)]
                        mdio.transfers() == t1 + seq![
                            read_op(addr, reg::MCSR, m),
                            write_failed_op(addr, reg::MCSR, powerdown_mcsr(m, false), e),
                        ];
                    assert(init_config_failed(t1, mdio.transfers(), addr, e));
                }
            }
            return Err(e);
        }
        let ghost t2 = mdio.transfers();
        if let Err(e) = self.enable_auto_negotiation(mdio) {
            proof {
                let m = choose|m: u16|
                    #![trigger read_op(addr, reg::MCSR, m)]
                    t2 == t1 + seq![read_op(addr, reg::MCSR, m), write_op(addr, reg::MCSR, powerdown_mcsr(m, false))];
                assert(an_setup_failed(
                    t1 + seq![read_op(addr, reg::MCSR, m), write_op(addr, reg::MCSR, powerdown_mcsr(m, false))],
                    mdio.transfers(),
                    addr,
                    e,
                ));
                assert(init_config_failed(t1, mdio.transfers(), addr, e));
            }
            return Err(e);
        }
        self.last_link_up = false;
        proof {
            let vals = choose|vals: Seq<u16>|
                #![trigger ieee802_3::bmcr_polls(addr, vals)]
                t1 == t0.push(write_op(addr, phy_reg::BMCR, crate::mdio::bmcr::RESET))
                    + ieee802_3::bmcr_polls(addr, vals) && ieee802_3::reset_wait_done(
                    vals,
                    RESET_MAX_ATTEMPTS,
                );
            let m = choose|m: u16|
                #![trigger read_op(addr, reg::MCSR, m)]
                t2 == t1 + seq![read_op(addr, reg::MCSR, m), write_op(addr, reg::MCSR, powerdown_mcsr(m, false))];
            let b = choose|b: u16| #![trigger an_setup(addr, b)] mdio.transfers() == t2 + an_setup(addr, b);
            assert(mdio.transfers() =~= t0 + init_transfers(addr, vals, m, b));
        }
        Ok(())
    }

    /// Write BMCR.RESET and poll BMCR until the bit clears.
    fn soft_reset<M: MdioBus>(&mut self, mdio: &mut M) -> (r: Result<()>)
        ensures
            *final(self) == *old(self),
            ieee802_3::soft_reset_logged(
                old(mdio).transfers(),
                final(mdio).transfers(),
                old(self).addr,
                RESET_MAX_ATTEMPTS,
                r,
            ),
    {
        ieee802_3::soft_reset(mdio, self.addr, RESET_MAX_ATTEMPTS)
    }

    /// Read BMSR: whether the link is up.
    fn is_link_up<M: MdioBus>(&self, mdio: &mut M) -> (r: Result<bool>)
        ensures
            r matches Ok(up) ==> exists|v: u16|
                #[trigger] one_read(old(mdio).transfers(), final(mdio).transfers(), self.addr, phy_reg::BMSR, v)
                    && up == (v & crate::mdio::bmsr::LINK_STATUS != 0),
            r matches Err(e) ==> final(mdio).transfers() == old(mdio).transfers().push(
                read_failed_op(self.addr, phy_reg::BMSR, e),
            ),
    {
        ieee802_3::is_link_up(mdio, self.addr)
    }

    /// Read BMSR and, if the link is up, PSCSR: the negotiated speed and
    /// duplex, or `None` while the link is down or negotiation is not done.
    fn link_status<M: MdioBus>(&self, mdio: &mut M) -> (r: Result<Option<LinkStatus>>)
        ensures
            r matches Ok(Some(l)) ==> exists|v: u16| pscsr_link(v) == Some(l),
            r matches Ok(o) ==> (exists|v: u16|
                #[trigger] one_read(old(mdio).transfers(), final(mdio).transfers(), self.addr, phy_reg::BMSR, v)
                    && v & crate::mdio::bmsr::LINK_STATUS == 0 && o is None) || (exists|v: u16, p: u16|
                #[trigger] link_read(old(mdio).transfers(), final(mdio).transfers(), self.addr, v, p)
                    && v & crate::mdio::bmsr::LINK_STATUS != 0 && o == pscsr_link(p)),
            r matches Err(e) ==> final(mdio).transfers() == old(mdio).transfers().push(
                read_failed_op(self.addr, phy_reg::BMSR, e),
            ) || exists|v: u16|
                #[trigger] link_read_failed(old(mdio).transfers(), final(mdio).transfers(), self.addr, v, e)
                    && v & crate::mdio::bmsr::LINK_STATUS != 0,
    {
        let ghost t0 = mdio.transfers();
        let up = self.is_link_up(mdio)?;
        let ghost t1 = mdio.transfers();
        if !up {
            return Ok(None);
        }
        let r = self.read_speed_indication(mdio);
        proof {
            let v = choose|v: u16|
                #[trigger] one_read(t0, t1, self.addr, phy_reg::BMSR, v) && up == (v & crate::mdio::bmsr::LINK_STATUS != 0);
            if r is Ok {
                let p = choose|p: u16|
                    #[trigger] one_read(t1, mdio.transfers(), self.addr, reg::PSCSR, p) && r == Ok::<Option<LinkStatus>, crate::error::Error>(pscsr_link(p));
                assert(mdio.transfers() =~= t0 + seq![
                    read_op(self.addr, phy_reg::BMSR, v),
                    read_op(self.addr, reg::PSCSR, p),
                ]);
                assert(link_read(t0, mdio.transfers(), self.addr, v, p));
            } else {
                assert(mdio.transfers() =~= t0 + seq![
                    read_op(self.addr, phy_reg::BMSR, v),
                    read_failed_op(self.addr, reg::PSCSR, r->Err_0),
                ]);
                assert(link_read_failed(t0, mdio.transfers(), self.addr, v, r->Err_0));
            }
        }
        r
    }

    /// Read BMSR and record the link state; on a transition from down to
    /// up, read PSCSR and report the negotiated speed and duplex.
    fn poll_link<M: MdioBus>(&mut self, mdio: &mut M) -> (r: Result<Option<LinkStatus>>)
        ensures
            final(self).phy_addr() == old(self).phy_addr(),
            r matches Ok(Some(l)) ==> !old(self).last_link_up && final(self).last_link_up && exists|
                v: u16,
            | pscsr_link(v) == Some(l),
            link_polled(
                old(mdio).transfers(),
                final(mdio).transfers(),
                old(self).addr,
                old(self).last_link_up,
                final(self).last_link_up,
                r,
            ),
    {
        let ghost t0 = mdio.transfers();
        let link_up = self.is_link_up(mdio)?;
        let ghost t1 = mdio.transfers();
        let ghost v = choose|v: u16|
            #[trigger] one_read(t0, t1, self.addr, phy_reg::BMSR, v) && link_up == (v & crate::mdio::bmsr::LINK_STATUS != 0);
        if link_up && !self.last_link_up {
            self.last_link_up = true;
            let r = self.read_speed_indication(mdio);
            proof {
                if r is Ok {
                    let p = choose|p: u16|
                        #[trigger] one_read(t1, mdio.transfers(), self.addr, reg::PSCSR, p) && r == Ok::<Option<LinkStatus>, crate::error::Error>(pscsr_link(p));
                    assert(mdio.transfers() =~= t0 + seq![
                    read_op(self.addr, phy_reg::BMSR, v),
                    read_op(self.addr, reg::PSCSR, p),
                ]);
                assert(link_read(t0, mdio.transfers(), self.addr, v, p));
                } else {
                    assert(mdio.transfers() =~= t0 + seq![
                        read_op(self.addr, phy_reg::BMSR, v),
                        read_failed_op(self.addr, reg::PSCSR, r->Err_0),
                    ]);
                    assert(link_read_failed(t0, mdio.transfers(), self.addr, v, r->Err_0));
                }
            }
            return r;
        }
        if !link_up && self.last_link_up {
            self.last_link_up = false;
        }
        proof {
            assert(one_read(t0, mdio.transfers(), self.addr, phy_reg::BMSR, v));
        }
        Ok(None)
    }

    /// Advertise every 10/100 mode and PAUSE in ANAR, then enable and
    /// restart auto-negotiation in BMCR.
    fn enable_auto_negotiation<M: MdioBus>(&mut self, mdio: &mut M) -> (r: Result<()>)
        ensures
            *final(self) == *old(self),
            r is Ok ==> exists|b: u16|
                #![trigger an_setup(old(self).addr, b)]
                final(mdio).transfers() == old(mdio).transfers() + an_setup(old(self).addr, b),
            r matches Err(e) ==> an_setup_failed(old(mdio).transfers(), final(mdio).transfers(), old(self).addr, e),
    {
        let caps = PhyCapabilities::standard_10_100();
        let ghost t0 = mdio.transfers();
        self.configure_advertisement(mdio, &caps)?;
        let ghost t1 = mdio.transfers();
        let r = ieee802_3::enable_auto_negotiation(mdio, self.addr);
        proof {
            let w = write_op(self.addr, phy_reg::ANAR, advertisement(standard_capabilities()));
            if r is Ok {
                let b = choose|b: u16|
                    #![trigger read_op(self.addr, phy_reg::BMCR, b)]
                    mdio.transfers() == t1 + seq![
                        read_op(self.addr, phy_reg::BMCR, b),
                        write_op(self.addr, phy_reg::BMCR, an_enabled_bmcr(b)),
                    ];
                assert(mdio.transfers() =~= t0 + an_setup(self.addr, b));
            } else {
                let e = r->Err_0;
                if mdio.transfers() == t1.push(read_failed_op(self.addr, phy_reg::BMCR, e)) {
                    assert(mdio.transfers() =~= t0 + seq![w, read_failed_op(self.addr, phy_reg::BMCR, e)]);
                } else {
                    let b = choose|b: u16|
                        #![trigger read_op(self.addr, phy_reg::BMCR, b)]
                        mdio.transfers() == t1 + seq![
                            read_op(self.addr, phy_reg::BMCR, b),
                            write_failed_op(self.addr, phy_reg::BMCR, an_enabled_bmcr(b), e),
                        ];
                    assert(mdio.transfers() =~= t0 + seq![
                        w,
                        read_op(self.addr, phy_reg::BMCR, b),
                        write_failed_op(self.addr, phy_reg::BMCR, an_enabled_bmcr(b), e),
                    ]);
                }
            }
        }
        r
    }

    /// Read BMCR, then write it back with the speed and duplex of `status`
    /// and auto-negotiation off.
    fn force_link<M: MdioBus>(&mut self, mdio: &mut M, status: LinkStatus) -> (r: Result<()>)
        ensures
            *final(self) == *old(self),
            reg_updated(
                old(mdio).transfers(),
                final(mdio).transfers(),
                old(self).addr,
                phy_reg::BMCR,
                r,
                |b: u16| forced_bmcr(b, status.speed == Speed::Mbps100, status.duplex == Duplex::Full),
            ),
    {
        ieee802_3::force_link(mdio, self.addr, status)
    }

    /// Read BMSR: what the PHY supports.
    fn capabilities<M: MdioBus>(&self, mdio: &mut M) -> (r: Result<PhyCapabilities>)
        ensures
            r matches Ok(c) ==> exists|v: u16|
                #[trigger] one_read(old(mdio).transfers(), final(mdio).transfers(), self.addr, phy_reg::BMSR, v)
                    && c == ieee802_3::bmsr_capabilities(v),
            r matches Err(e) ==> final(mdio).transfers() == old(mdio).transfers().push(
                read_failed_op(self.addr, phy_reg::BMSR, e),
            ),
    {
        ieee802_3::read_capabilities(mdio, self.addr)
    }

    /// Read PHYIDR1 and PHYIDR2: the 32-bit identifier.
    fn phy_id<M: MdioBus>(&self, mdio: &mut M) -> (r: Result<u32>)
        ensures
            r matches Ok(id) ==> exists|id1: u16, id2: u16|
                #![trigger id_read(old(mdio).transfers(), final(mdio).transfers(), self.addr, id1, id2)]
                id == phy_id_of(id1, id2) && id_read(
                    old(mdio).transfers(),
                    final(mdio).transfers(),
                    self.addr,
                    id1,
                    id2,
                ),
            r matches Err(e) ==> id_read_failed(old(mdio).transfers(), final(mdio).transfers(), self.addr, e),
    {
        ieee802_3::read_phy_id(mdio, self.addr)
    }

    /// Read BMSR: whether auto-negotiation is complete.
    fn is_auto_negotiation_complete<M: MdioBus>(&self, mdio: &mut M) -> (r: Result<bool>)
        ensures
            r matches Ok(done) ==> exists|v: u16|
                #[trigger] one_read(old(mdio).transfers(), final(mdio).transfers(), self.addr, phy_reg::BMSR, v)
                    && done == (v & crate::mdio::bmsr::AN_COMPLETE != 0),
            r matches Err(e) ==> final(mdio).transfers() == old(mdio).transfers().push(
                read_failed_op(self.addr, phy_reg::BMSR, e),
            ),
    {
        ieee802_3::is_an_complete(mdio, self.addr)
    }

    /// Read ANLPAR: what the link partner advertised.
    fn link_partner_abilities<M: MdioBus>(&self, mdio: &mut M) -> (r: Result<PhyCapabilities>)
        ensures
            r matches Ok(c) ==> exists|v: u16|
                #[trigger] one_read(old(mdio).transfers(), final(mdio).transfers(), self.addr, phy_reg::ANLPAR, v)
                    && c == ieee802_3::anlpar_capabilities(v),
            r matches Err(e) ==> final(mdio).transfers() == old(mdio).transfers().push(
                read_failed_op(self.addr, phy_reg::ANLPAR, e),
            ),
    {
        ieee802_3::read_link_partner(mdio, self.addr)
    }
}

/// `after` is what a failed `enable_auto_negotiation` of the PHY at `phy`
/// leaves after `before`: the transfers that succeed up to the first one,
/// which failed with `e`.
pub open spec fn an_setup_failed(before: Seq<MdioOp>, after: Seq<MdioOp>, phy: u8, e: Error) -> bool {
    let adv = advertisement(standard_capabilities());
    let w = write_op(phy, phy_reg::ANAR, adv);
    ||| after == before.push(write_failed_op(phy, phy_reg::ANAR, adv, e))
    ||| after == before + seq![w, read_failed_op(phy, phy_reg::BMCR, e)]
    ||| exists|b: u16|
        #![trigger read_op(phy, phy_reg::BMCR, b)]
        after == before + seq![
            w,
            read_op(phy, phy_reg::BMCR, b),
            write_failed_op(phy, phy_reg::BMCR, an_enabled_bmcr(b), e),
        ]
}

/// `after` is what the configuration steps of a failed `init` of the PHY at
/// `phy` leave after `before`, the reset having completed: a failed read of
/// MCSR; a read of MCSR and a failed write clearing energy-detect
/// power-down; or MCSR updated and a failed auto-negotiation setup; the
/// failed transfer failed with `e`.
pub open spec fn init_config_failed(before: Seq<MdioOp>, after: Seq<MdioOp>, phy: u8, e: Error) -> bool {
    ||| after == before.push(read_failed_op(phy, reg::MCSR, e))
    ||| exists|m: u16|
        #![trigger read_op(phy, reg::MCSR, m)]
        after == before + seq![
            read_op(phy, reg::MCSR, m),
            write_failed_op(phy, reg::MCSR, powerdown_mcsr(m, false), e),
        ]
    ||| exists|m: u16|
        #![trigger read_op(phy, reg::MCSR, m)]
        an_setup_failed(
            before + seq![read_op(phy, reg::MCSR, m), write_op(phy, reg::MCSR, powerdown_mcsr(m, false))],
            after,
            phy,
            e,
        )
}

/// `after` is what a failed `init` of the PHY at `phy` leaves after
/// `before`: a failed soft reset, or a completed one and failed
/// configuration steps, failed with `e`.
pub open spec fn init_failed(before: Seq<MdioOp>, after: Seq<MdioOp>, phy: u8, e: Error) -> bool {
    ||| ieee802_3::soft_reset_failed(before, after, phy, RESET_MAX_ATTEMPTS, e)
    ||| exists|mid: Seq<MdioOp>|
        #![trigger ieee802_3::soft_reset_done(before, mid, phy, RESET_MAX_ATTEMPTS)]
        ieee802_3::soft_reset_done(before, mid, phy, RESET_MAX_ATTEMPTS) && init_config_failed(mid, after, phy, e)
}

/// The polls `segs` of a wait for the link of the PHY at `phy` that ended
/// with `r`, the link taken as up as `ups` says before each poll and after
/// the last: every poll but the last reported nothing, the last ended the
/// wait with `r`, and a wait that found no link made `max_polls` polls.
pub open spec fn link_waited(
    segs: Seq<Seq<MdioOp>>,
    ups: Seq<bool>,
    phy: u8,
    max_polls: u32,
    r: Result<Option<LinkStatus>>,
) -> bool {
    &&& 0 < segs.len() <= max_polls
    &&& ups.len() == segs.len() + 1
    &&& forall|i: int|
        0 <= i < segs.len() - 1 ==> link_polled(
            Seq::empty(),
            #[trigger] segs[i],
            phy,
            ups[i],
            ups[i + 1],
            Ok(None),
        )
    &&& link_polled(Seq::empty(), segs.last(), phy, ups[segs.len() - 1], ups.last(), r)
    &&& r == Ok::<Option<LinkStatus>, crate::error::Error>(None) ==> segs.len() == max_polls
}

/// Poll the link until it comes up, at most `AN_MAX_ATTEMPTS` times: the
/// negotiated speed and duplex, or `None` if it did not come up.
pub fn wait_for_link<M: MdioBus>(phy: &mut Lan8720a, mdio: &mut M) -> (r: Result<Option<LinkStatus>>)
    ensures
        final(phy).phy_addr() == old(phy).phy_addr(),
        r matches Ok(Some(l)) ==> final(phy).last_link_up && exists|v: u16| pscsr_link(v) == Some(l),
        exists|segs: Seq<Seq<MdioOp>>, ups: Seq<bool>|
            #![trigger link_waited(segs, ups, old(phy).addr, AN_MAX_ATTEMPTS, r)]
            link_waited(segs, ups, old(phy).addr, AN_MAX_ATTEMPTS, r) && ups[0] == old(
                phy,
            ).last_link_up && ups.last() == final(phy).last_link_up && final(mdio).transfers() == old(
                mdio,
            ).transfers() + segs.flatten_alt(),
{
    let ghost t0 = mdio.transfers();
    let ghost addr = phy.addr;
    let ghost mut segs: Seq<Seq<MdioOp>> = Seq::empty();
    let ghost mut ups: Seq<bool> = seq![phy.last_link_up];
    let mut i: u32 = 0;
    proof {
        assert(segs.flatten_alt() =~= Seq::<MdioOp>::empty());
        assert(mdio.transfers() =~= t0 + segs.flatten_alt());
    }
    while i < AN_MAX_ATTEMPTS
        invariant
            phy.phy_addr() == old(phy).phy_addr(),
            addr == old(phy).addr,
            segs.len() == i,
            ups.len() == i + 1,
            ups[0] == old(phy).last_link_up,
            ups.last() == phy.last_link_up,
            i <= AN_MAX_ATTEMPTS,
            mdio.transfers() == t0 + segs.flatten_alt(),
            t0 == old(mdio).transfers(),
            forall|j: int|
                0 <= j < i ==> link_polled(
                    Seq::empty(),
                    #[trigger] segs[j],
                    addr,
                    ups[j],
                    ups[j + 1],
                    Ok(None),
                ),
        decreases AN_MAX_ATTEMPTS - i,
    {
        let ghost before = mdio.transfers();
        let ghost was = phy.last_link_up;
        let res = phy.poll_link(mdio);
        proof {
            lemma_poll_segment(before, mdio.transfers(), addr, was, phy.last_link_up, res);
            let seg = mdio.transfers().subrange(before.len() as int, mdio.transfers().len() as int);
            let ns = segs.push(seg);
            assert(ns.drop_last() =~= segs);
            assert(ns.flatten_alt() == segs.flatten_alt() + seg);
            assert(mdio.transfers() =~= t0 + ns.flatten_alt());
            let nu = ups.push(phy.last_link_up);
            assert(forall|j: int| 0 <= j < i ==> #[trigger] ns[j] == segs[j] && nu[j] == ups[j] && nu[j + 1] == ups[j + 1]);
            segs = ns;
            ups = nu;
        }
        match res {
            Ok(Some(l)) => {
                proof {
                    assert(link_waited(segs, ups, addr, AN_MAX_ATTEMPTS, Ok(Some(l))));
                }
                return Ok(Some(l));
            },
            Ok(None) => {},
            Err(e) => {
                proof {
                    assert(link_waited(segs, ups, addr, AN_MAX_ATTEMPTS, Err(e)));
                }
                return Err(e);
            },
        }
        i = i + 1;
    }
    proof {
        assert(link_waited(segs, ups, addr, AN_MAX_ATTEMPTS, Ok(None)));
    }
    Ok(None)
}

/// The transfers `seg` of one probe of the PHY at `a` for a LAN8720A, and
/// what it concluded: found if both identifier registers were read and name
/// the LAN8720A; not found if a read failed or they name another PHY.
pub open spec fn probed(seg: Seq<MdioOp>, a: u8, found: bool) -> bool {
    if found {
        exists|id1: u16, id2: u16|
            #![trigger id_read(Seq::empty(), seg, a, id1, id2)]
            id_read(Seq::empty(), seg, a, id1, id2) && is_lan8720a_id(phy_id_of(id1, id2))
    } else {
        ||| exists|e: Error| #[trigger] id_read_failed(Seq::empty(), seg, a, e)
        ||| exists|id1: u16, id2: u16|
            #![trigger id_read(Seq::empty(), seg, a, id1, id2)]
            id_read(Seq::empty(), seg, a, id1, id2) && !is_lan8720a_id(phy_id_of(id1, id2))
    }
}

/// One probe, as `verify_id` reports it, in terms of the transfers it added.
proof fn lemma_probe(before: Seq<MdioOp>, after: Seq<MdioOp>, a: u8, r: Result<bool>)
    requires
        r matches Ok(b) ==> exists|id1: u16, id2: u16|
            #![trigger id_read(before, after, a, id1, id2)]
            b == is_lan8720a_id(phy_id_of(id1, id2)) && id_read(before, after, a, id1, id2),
        r matches Err(e) ==> id_read_failed(before, after, a, e),
    ensures
        before.is_prefix_of(after),
        after == before + after.subrange(before.len() as int, after.len() as int),
        probed(after.subrange(before.len() as int, after.len() as int), a, r matches Ok(b) && b),
{
    let seg = after.subrange(before.len() as int, after.len() as int);
    if r is Ok {
        let b = r->Ok_0;
        let (id1, id2) = choose|id1: u16, id2: u16|
            #![trigger id_read(before, after, a, id1, id2)]
            b == is_lan8720a_id(phy_id_of(id1, id2)) && id_read(before, after, a, id1, id2);
        assert(after.subrange(0, before.len() as int) =~= before);
        assert(seg =~= seq![read_op(a, phy_reg::PHYIDR1, id1), read_op(a, phy_reg::PHYIDR2, id2)]);
        assert(id_read(Seq::empty(), seg, a, id1, id2));
    } else {
        let e = r->Err_0;
        if after == before.push(read_failed_op(a, phy_reg::PHYIDR1, e)) {
            assert(seg =~= Seq::<MdioOp>::empty().push(read_failed_op(a, phy_reg::PHYIDR1, e)));
            assert(id_read_failed(Seq::empty(), seg, a, e));
        } else {
            let v = choose|v: u16|
                #![trigger read_op(a, phy_reg::PHYIDR1, v)]
                after == before + seq![read_op(a, phy_reg::PHYIDR1, v), read_failed_op(a, phy_reg::PHYIDR2, e)];
            assert(seg =~= seq![read_op(a, phy_reg::PHYIDR1, v), read_failed_op(a, phy_reg::PHYIDR2, e)]);
            assert(id_read_failed(Seq::empty(), seg, a, e));
        }
        assert(after.subrange(0, before.len() as int) =~= before);
    }
    assert(after =~= before + seg);
}

/// Probe every MDIO address for a LAN8720A: entry `a` is `Some(a)` where
/// one answered with its identifier, `None` elsewhere, including where the
/// bus failed. The addresses are probed in order, each with one
/// identifier read.
pub fn scan_bus<M: MdioBus>(mdio: &mut M) -> (r: Result<[Option<u8>; 32]>)
    ensures
        r is Ok,
        r matches Ok(found) ==> exists|segs: Seq<Seq<MdioOp>>|
            #![trigger segs.flatten_alt()]
            segs.len() == 32 && final(mdio).transfers() == old(mdio).transfers() + segs.flatten_alt()
                && forall|a: int|
                0 <= a < 32 ==> probed(#[trigger] segs[a], a as u8, found[a] is Some) && (found[a] is Some
                    ==> found[a] == Some(a as u8)),
{
    let mut found: [Option<u8>; 32] = [None; 32];
    let mut addr: u8 = 0;
    let ghost t0 = mdio.transfers();
    let ghost mut segs: Seq<Seq<MdioOp>> = Seq::empty();
    proof {
        assert(segs.flatten_alt() =~= Seq::<MdioOp>::empty());
        assert(mdio.transfers() =~= t0 + segs.flatten_alt());
    }
    while addr < 32
        invariant
            addr <= 32,
            segs.len() == addr,
            mdio.transfers() == t0 + segs.flatten_alt(),
            forall|a: int|
                0 <= a < addr ==> probed(#[trigger] segs[a], a as u8, found[a] is Some) && (found[a] is Some
                    ==> found[a] == Some(a as u8)),
            forall|a: int| addr <= a < 32 ==> #[trigger] found[a] is None,
        decreases 32 - addr,
    {
        let phy = Lan8720a::new(addr);
        let ghost before = mdio.transfers();
        let res = phy.verify_id(mdio);
        let is_lan = match res {
            Ok(b) => b,
            Err(_) => false,
        };
        proof {
            lemma_probe(before, mdio.transfers(), addr, res);
            let seg = mdio.transfers().subrange(before.len() as int, mdio.transfers().len() as int);
            let ns = segs.push(seg);
            assert(ns.drop_last() =~= segs);
            assert(ns.flatten_alt() == segs.flatten_alt() + seg);
            assert(mdio.transfers() =~= t0 + ns.flatten_alt());
            segs = ns;
        }
        let ghost prev_found = found;
        if is_lan {
            found[addr as usize] = Some(addr);
        }
        proof {
            assert(probed(segs[addr as int], addr, is_lan));
            assert(found[addr as int] is Some == is_lan);
            assert forall|a: int| 0 <= a < addr implies found[a] == prev_found[a] by {}
        }
        addr = addr + 1;
    }
    Ok(found)
}

} // verus!
