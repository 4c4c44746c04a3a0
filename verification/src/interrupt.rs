//! Interrupt status flags decoded from the DMA status register.

use vstd::prelude::*;
use crate::regs::dma::{
    DMASTATUS_AIS, DMASTATUS_FBI, DMASTATUS_NIS, DMASTATUS_OVF, DMASTATUS_RI, DMASTATUS_RPS,
    DMASTATUS_RU, DMASTATUS_TI, DMASTATUS_TPS, DMASTATUS_TU, DMASTATUS_UNF,
};

verus! {

/// Interrupt status flags parsed from the DMA status register.
#[derive(Debug, Clone, Copy, PartialEq, Eq, Structural)]
pub struct InterruptStatus {
    /// TX complete - frame transmitted successfully
    pub tx_complete: bool,
    /// TX stopped - TX DMA stopped
    pub tx_stopped: bool,
    /// TX buffer unavailable - no TX descriptors available
    pub tx_buf_unavailable: bool,
    /// TX underflow - TX FIFO underflow
    pub tx_underflow: bool,
    /// RX complete - frame received
    pub rx_complete: bool,
    /// RX stopped - RX DMA stopped
    pub rx_stopped: bool,
    /// RX buffer unavailable - no RX descriptors available
    pub rx_buf_unavailable: bool,
    /// RX overflow - RX FIFO overflow
    pub rx_overflow: bool,
    /// Fatal bus error - unrecoverable DMA error
    pub fatal_bus_error: bool,
    /// Normal interrupt summary
    pub normal_summary: bool,
    /// Abnormal interrupt summary
    pub abnormal_summary: bool,
}

/// The status bits this structure decodes.
pub open spec fn status_mask() -> u32 {
    DMASTATUS_TI | DMASTATUS_TPS | DMASTATUS_TU | DMASTATUS_UNF | DMASTATUS_RI | DMASTATUS_RPS
        | DMASTATUS_RU | DMASTATUS_OVF | DMASTATUS_FBI | DMASTATUS_NIS | DMASTATUS_AIS
}

/// `bit` if `flag` is set, 0 otherwise.
pub open spec fn bit_if(flag: bool, bit: u32) -> u32 {
    if flag {
        bit
    } else {
        0
    }
}

/// The status word with exactly the bits of the set flags of `s`.
pub open spec fn status_word(s: InterruptStatus) -> u32 {
    bit_if(s.tx_complete, DMASTATUS_TI) | bit_if(s.tx_stopped, DMASTATUS_TPS) | bit_if(
        s.tx_buf_unavailable,
        DMASTATUS_TU,
    ) | bit_if(s.tx_underflow, DMASTATUS_UNF) | bit_if(s.rx_complete, DMASTATUS_RI) | bit_if(
        s.rx_stopped,
        DMASTATUS_RPS,
    ) | bit_if(s.rx_buf_unavailable, DMASTATUS_RU) | bit_if(s.rx_overflow, DMASTATUS_OVF)
        | bit_if(s.fatal_bus_error, DMASTATUS_FBI) | bit_if(s.normal_summary, DMASTATUS_NIS)
        | bit_if(s.abnormal_summary, DMASTATUS_AIS)
}

/// The flags decoded from status word `w`.
pub open spec fn decode_status(w: u32) -> InterruptStatus {
    InterruptStatus {
        tx_complete: w & DMASTATUS_TI != 0,
        tx_stopped: w & DMASTATUS_TPS != 0,
        tx_buf_unavailable: w & DMASTATUS_TU != 0,
        tx_underflow: w & DMASTATUS_UNF != 0,
        rx_complete: w & DMASTATUS_RI != 0,
        rx_stopped: w & DMASTATUS_RPS != 0,
        rx_buf_unavailable: w & DMASTATUS_RU != 0,
        rx_overflow: w & DMASTATUS_OVF != 0,
        fatal_bus_error: w & DMASTATUS_FBI != 0,
        normal_summary: w & DMASTATUS_NIS != 0,
        abnormal_summary: w & DMASTATUS_AIS != 0,
    }
}

/// Whether any event flag of `s` is set; the summary flags do not count.
pub open spec fn any_event(s: InterruptStatus) -> bool {
    s.tx_complete || s.tx_stopped || s.tx_buf_unavailable || s.tx_underflow || s.rx_complete
        || s.rx_stopped || s.rx_buf_unavailable || s.rx_overflow || s.fatal_bus_error
}

/// Whether an error flag of `s` is set: underflow, overflow or fatal bus
/// error.
pub open spec fn any_error(s: InterruptStatus) -> bool {
    s.tx_underflow || s.rx_overflow || s.fatal_bus_error
}

impl InterruptStatus {
    /// Decode the raw DMA status register value.
    pub fn from_raw(status: u32) -> (r: Self)
        ensures
            r == decode_status(status),
    {
        InterruptStatus {
            tx_complete: (status & DMASTATUS_TI) != 0,
            tx_stopped: (status & DMASTATUS_TPS) != 0,
            tx_buf_unavailable: (status & DMASTATUS_TU) != 0,
            tx_underflow: (status & DMASTATUS_UNF) != 0,
            rx_complete: (status & DMASTATUS_RI) != 0,
            rx_stopped: (status & DMASTATUS_RPS) != 0,
            rx_buf_unavailable: (status & DMASTATUS_RU) != 0,
            rx_overflow: (status & DMASTATUS_OVF) != 0,
            fatal_bus_error: (status & DMASTATUS_FBI) != 0,
            normal_summary: (status & DMASTATUS_NIS) != 0,
            abnormal_summary: (status & DMASTATUS_AIS) != 0,
        }
    }

    /// The raw value with the bits of the set flags, for write-1-to-clear.
    pub fn to_raw(&self) -> (r: u32)
        ensures
            r == status_word(*self),
    {
        let ti = if self.tx_complete { DMASTATUS_TI } else { 0 };
        let tps = if self.tx_stopped { DMASTATUS_TPS } else { 0 };
        let tu = if self.tx_buf_unavailable { DMASTATUS_TU } else { 0 };
        let unf = if self.tx_underflow { DMASTATUS_UNF } else { 0 };
        let ri = if self.rx_complete { DMASTATUS_RI } else { 0 };
        let rps = if self.rx_stopped { DMASTATUS_RPS } else { 0 };
        let ru = if self.rx_buf_unavailable { DMASTATUS_RU } else { 0 };
        let ovf = if self.rx_overflow { DMASTATUS_OVF } else { 0 };
        let fbi = if self.fatal_bus_error { DMASTATUS_FBI } else { 0 };
        let nis = if self.normal_summary { DMASTATUS_NIS } else { 0 };
        let ais = if self.abnormal_summary { DMASTATUS_AIS } else { 0 };
        ti | tps | tu | unf | ri | rps | ru | ovf | fbi | nis | ais
    }

    /// Whether any interrupt occurred; the summary bits do not count.
    pub fn any(&self) -> (r: bool)
        ensures
            r == any_event(*self),
    {
        self.tx_complete || self.tx_stopped || self.tx_buf_unavailable || self.tx_underflow
            || self.rx_complete || self.rx_stopped || self.rx_buf_unavailable || self.rx_overflow
            || self.fatal_bus_error
    }

    /// Whether an error occurred.
    pub fn has_error(&self) -> (r: bool)
        ensures
            r == any_error(*self),
    {
        self.tx_underflow || self.rx_overflow || self.fatal_bus_error
    }
}

impl Default for InterruptStatus {
    /// No flag set.
    fn default() -> (r: Self)
        ensures
            r == decode_status(0),
    {
        InterruptStatus::from_raw(0)
    }
}

/// The bits of an or of eleven words, each 0 or its own status bit.
proof fn lemma_status_bits(
    a: u32,
    b: u32,
    c: u32,
    d: u32,
    e: u32,
    f: u32,
    g: u32,
    h: u32,
    i: u32,
    j: u32,
    k: u32,
) by (bit_vector)
    requires
        a == 0 || a == 0x1u32,
        b == 0 || b == 0x2u32,
        c == 0 || c == 0x4u32,
        d == 0 || d == 0x20u32,
        e == 0 || e == 0x40u32,
        f == 0 || f == 0x100u32,
        g == 0 || g == 0x80u32,
        h == 0 || h == 0x10u32,
        i == 0 || i == 0x2000u32,
        j == 0 || j == 0x1_0000u32,
        k == 0 || k == 0x8000u32,
    ensures
        ((a | b | c | d | e | f | g | h | i | j | k) & 0x1u32 != 0) == (a != 0),
        ((a | b | c | d | e | f | g | h | i | j | k) & 0x2u32 != 0) == (b != 0),
        ((a | b | c | d | e | f | g | h | i | j | k) & 0x4u32 != 0) == (c != 0),
        ((a | b | c | d | e | f | g | h | i | j | k) & 0x20u32 != 0) == (d != 0),
        ((a | b | c | d | e | f | g | h | i | j | k) & 0x40u32 != 0) == (e != 0),
        ((a | b | c | d | e | f | g | h | i | j | k) & 0x100u32 != 0) == (f != 0),
        ((a | b | c | d | e | f | g | h | i | j | k) & 0x80u32 != 0) == (g != 0),
        ((a | b | c | d | e | f | g | h | i | j | k) & 0x10u32 != 0) == (h != 0),
        ((a | b | c | d | e | f | g | h | i | j | k) & 0x2000u32 != 0) == (i != 0),
        ((a | b | c | d | e | f | g | h | i | j | k) & 0x1_0000u32 != 0) == (j != 0),
        ((a | b | c | d | e | f | g | h | i | j | k) & 0x8000u32 != 0) == (k != 0),
{
}

/// Decoding the word of a set of flags gives back those flags.
pub proof fn lemma_status_roundtrip(s: InterruptStatus)
    ensures
        decode_status(status_word(s)) == s,
{
    lemma_status_bits(
        bit_if(s.tx_complete, DMASTATUS_TI),
        bit_if(s.tx_stopped, DMASTATUS_TPS),
        bit_if(s.tx_buf_unavailable, DMASTATUS_TU),
        bit_if(s.tx_underflow, DMASTATUS_UNF),
        bit_if(s.rx_complete, DMASTATUS_RI),
        bit_if(s.rx_stopped, DMASTATUS_RPS),
        bit_if(s.rx_buf_unavailable, DMASTATUS_RU),
        bit_if(s.rx_overflow, DMASTATUS_OVF),
        bit_if(s.fatal_bus_error, DMASTATUS_FBI),
        bit_if(s.normal_summary, DMASTATUS_NIS),
        bit_if(s.abnormal_summary, DMASTATUS_AIS),
    );
}

/// Encoding the flags decoded from a word gives back the word's decoded
/// bits: every other bit is dropped.
pub proof fn lemma_word_roundtrip(w: u32)
    ensures
        status_word(decode_status(w)) == w & status_mask(),
{
    let s = decode_status(w);
    assert(status_mask() == 0x1_A1F7u32) by (bit_vector);
    assert(status_word(s) == bit_if(w & 0x1u32 != 0, 0x1u32) | bit_if(w & 0x2u32 != 0, 0x2u32)
        | bit_if(w & 0x4u32 != 0, 0x4u32) | bit_if(w & 0x20u32 != 0, 0x20u32) | bit_if(
        w & 0x40u32 != 0,
        0x40u32,
    ) | bit_if(w & 0x100u32 != 0, 0x100u32) | bit_if(w & 0x80u32 != 0, 0x80u32) | bit_if(
        w & 0x10u32 != 0,
        0x10u32,
    ) | bit_if(w & 0x2000u32 != 0, 0x2000u32) | bit_if(w & 0x1_0000u32 != 0, 0x1_0000u32)
        | bit_if(w & 0x8000u32 != 0, 0x8000u32));
    assert((if w & 0x1u32 != 0 { 0x1u32 } else { 0u32 }) | (if w & 0x2u32 != 0 {
        0x2u32
    } else {
        0u32
    }) | (if w & 0x4u32 != 0 { 0x4u32 } else { 0u32 }) | (if w & 0x20u32 != 0 {
        0x20u32
    } else {
        0u32
    }) | (if w & 0x40u32 != 0 { 0x40u32 } else { 0u32 }) | (if w & 0x100u32 != 0 {
        0x100u32
    } else {
        0u32
    }) | (if w & 0x80u32 != 0 { 0x80u32 } else { 0u32 }) | (if w & 0x10u32 != 0 {
        0x10u32
    } else {
        0u32
    }) | (if w & 0x2000u32 != 0 { 0x2000u32 } else { 0u32 }) | (if w & 0x1_0000u32 != 0 {
        0x1_0000u32
    } else {
        0u32
    }) | (if w & 0x8000u32 != 0 { 0x8000u32 } else { 0u32 }) == w & 0x1_A1F7u32) by (bit_vector);
}

} // verus!
