//! RX DMA descriptor for frame reception.
//!
//! The descriptor is four status/control words, a reserved word and two
//! timestamp words, in the order in which the DMA reads them. The DMA
//! writes RDES0 (and RDES4, RDES6, RDES7) back when it fills the buffer.

use vstd::prelude::*;
use super::bits::{rdes0, rdes1, rdes4};

verus! {

/// RX DMA descriptor (eight 32-bit words, 32 bytes).
#[derive(Debug, Clone, Copy)]
pub struct RxDescriptor {
    /// RDES0: status bits, written back by the DMA
    pub rdes0: u32,
    /// RDES1: control and buffer sizes
    pub rdes1: u32,
    /// RDES2: buffer 1 address
    pub buffer1_addr: u32,
    /// RDES3: next descriptor address (chained mode)
    pub buffer2_next_desc: u32,
    /// RDES4: extended status (when enabled)
    pub extended_status: u32,
    /// Reserved word
    pub reserved: u32,
    /// RDES6: timestamp low
    pub timestamp_low: u32,
    /// RDES7: timestamp high
    pub timestamp_high: u32,
}

/// The descriptor words other than RDES0 and RDES1 are those of `b`.
pub open spec fn rx_same_tail(a: RxDescriptor, b: RxDescriptor) -> bool {
    &&& a.buffer1_addr == b.buffer1_addr
    &&& a.buffer2_next_desc == b.buffer2_next_desc
    &&& a.extended_status == b.extended_status
    &&& a.reserved == b.reserved
    &&& a.timestamp_low == b.timestamp_low
    &&& a.timestamp_high == b.timestamp_high
}

/// Whether the DMA owns a descriptor with status word `w`.
pub open spec fn rx_owned(w: u32) -> bool {
    w & rdes0::OWN != 0
}

/// Whether status word `w` marks the last descriptor of a frame.
pub open spec fn rx_last(w: u32) -> bool {
    w & rdes0::LAST_DESC != 0
}

/// Whether status word `w` marks the first descriptor of a frame.
pub open spec fn rx_first(w: u32) -> bool {
    w & rdes0::FIRST_DESC != 0
}

/// Whether status word `w` has the error summary bit.
pub open spec fn rx_error(w: u32) -> bool {
    w & rdes0::ERR_SUMMARY != 0
}

/// The frame length field of status word `w` (CRC included).
pub open spec fn rx_frame_length(w: u32) -> nat {
    ((w & rdes0::FRAME_LEN_MASK) >> rdes0::FRAME_LEN_SHIFT) as nat
}

/// The frame length of status word `w` without the 4-byte CRC (0 if shorter).
pub open spec fn rx_payload_length(w: u32) -> nat {
    if rx_frame_length(w) >= 4 { (rx_frame_length(w) - 4) as nat } else { 0 }
}

/// A descriptor with every word zero.
pub open spec fn rx_zeroed() -> RxDescriptor {
    RxDescriptor {
        rdes0: 0,
        rdes1: 0,
        buffer1_addr: 0,
        buffer2_next_desc: 0,
        extended_status: 0,
        reserved: 0,
        timestamp_low: 0,
        timestamp_high: 0,
    }
}

/// The 64-bit value of a high and a low 32-bit half.
pub open spec fn join_u64(high: u32, low: u32) -> int {
    high as int * 0x1_0000_0000 + low as int
}

impl RxDescriptor {
    /// Size of the descriptor in bytes
    pub const SIZE: usize = 32;

    /// Create a new zeroed descriptor. Call `setup_chained()` before use.
    pub fn new() -> (d: Self)
        ensures
            d == rx_zeroed(),
    {
        RxDescriptor {
            rdes0: 0,
            rdes1: 0,
            buffer1_addr: 0,
            buffer2_next_desc: 0,
            extended_status: 0,
            reserved: 0,
            timestamp_low: 0,
            timestamp_high: 0,
        }
    }

    /// Configure the descriptor in chained mode and give it to the DMA.
    ///
    /// `buffer` and `next_desc` are the bus addresses of the data buffer and
    /// of the next descriptor in the chain.
    pub fn setup_chained(&mut self, buffer: u32, buffer_size: usize, next_desc: u32)
        ensures
            final(self).buffer1_addr == buffer,
            final(self).buffer2_next_desc == next_desc,
            final(self).rdes1 == rdes1::SECOND_ADDR_CHAINED | ((buffer_size as u32)
                & rdes1::BUFFER1_SIZE_MASK),
            final(self).rdes0 == rdes0::OWN,
            final(self).extended_status == old(self).extended_status,
            final(self).reserved == old(self).reserved,
            final(self).timestamp_low == old(self).timestamp_low,
            final(self).timestamp_high == old(self).timestamp_high,
    {
        self.buffer1_addr = buffer;
        self.buffer2_next_desc = next_desc;
        self.rdes1 = rdes1::SECOND_ADDR_CHAINED | ((buffer_size as u32) & rdes1::BUFFER1_SIZE_MASK);
        self.rdes0 = rdes0::OWN;
    }

    /// Configure the descriptor as end of ring (wraps to `first_desc`) and give
    /// it to the DMA.
    pub fn setup_end_of_ring(&mut self, buffer: u32, buffer_size: usize, first_desc: u32)
        ensures
            final(self).buffer1_addr == buffer,
            final(self).buffer2_next_desc == first_desc,
            final(self).rdes1 == rdes1::SECOND_ADDR_CHAINED | rdes1::RX_END_OF_RING | ((
            buffer_size as u32) & rdes1::BUFFER1_SIZE_MASK),
            final(self).rdes0 == rdes0::OWN,
            final(self).extended_status == old(self).extended_status,
            final(self).reserved == old(self).reserved,
            final(self).timestamp_low == old(self).timestamp_low,
            final(self).timestamp_high == old(self).timestamp_high,
    {
        self.buffer1_addr = buffer;
        self.buffer2_next_desc = first_desc;
        self.rdes1 = rdes1::SECOND_ADDR_CHAINED | rdes1::RX_END_OF_RING | ((buffer_size as u32)
            & rdes1::BUFFER1_SIZE_MASK);
        self.rdes0 = rdes0::OWN;
    }

    /// Returns true if the DMA owns this descriptor.
    pub fn is_owned(&self) -> (r: bool)
        ensures
            r == rx_owned(self.rdes0),
    {
        (self.rdes0 & rdes0::OWN) != 0
    }

    /// Give ownership to the DMA (the status word becomes just OWN).
    pub fn set_owned(&mut self)
        ensures
            final(self).rdes0 == rdes0::OWN,
            final(self).rdes1 == old(self).rdes1,
            rx_same_tail(*final(self), *old(self)),
            rx_owned(final(self).rdes0),
    {
        self.rdes0 = rdes0::OWN;
        proof {
            crate::regs::lemma_word_bits();
        }
    }

    /// Take ownership from the DMA; the other status bits are kept.
    pub fn clear_owned(&mut self)
        ensures
            final(self).rdes0 == old(self).rdes0 & !rdes0::OWN,
            final(self).rdes1 == old(self).rdes1,
            rx_same_tail(*final(self), *old(self)),
            !rx_owned(final(self).rdes0),
            forall|m: u32| m & rdes0::OWN == 0 ==> (final(self).rdes0 & m) == (old(self).rdes0 & m),
    {
        let old_w = self.rdes0;
        self.rdes0 = old_w & !rdes0::OWN;
        proof {
            crate::regs::lemma_word_bits();
        }
    }

    /// First descriptor of a frame.
    pub fn is_first(&self) -> (r: bool)
        ensures
            r == rx_first(self.rdes0),
    {
        (self.rdes0 & rdes0::FIRST_DESC) != 0
    }

    /// Last descriptor of a frame.
    pub fn is_last(&self) -> (r: bool)
        ensures
            r == rx_last(self.rdes0),
    {
        (self.rdes0 & rdes0::LAST_DESC) != 0
    }

    /// Complete frame in a single descriptor (first and last).
    pub fn is_complete_frame(&self) -> (r: bool)
        ensures
            r == (rx_first(self.rdes0) && rx_last(self.rdes0)),
    {
        let status = self.rdes0;
        let r = (status & (rdes0::FIRST_DESC | rdes0::LAST_DESC)) == (rdes0::FIRST_DESC
            | rdes0::LAST_DESC);
        assert(((status & (rdes0::FIRST_DESC | rdes0::LAST_DESC)) == (rdes0::FIRST_DESC
            | rdes0::LAST_DESC)) == (rx_first(status) && rx_last(status))) by (bit_vector);
        r
    }

    /// Returns true if the error summary bit is set.
    pub fn has_error(&self) -> (r: bool)
        ensures
            r == rx_error(self.rdes0),
    {
        (self.rdes0 & rdes0::ERR_SUMMARY) != 0
    }

    /// Raw error flags from RDES0.
    pub fn error_flags(&self) -> (r: u32)
        ensures
            r == self.rdes0 & rdes0::ALL_ERRORS,
    {
        self.rdes0 & rdes0::ALL_ERRORS
    }

    /// Frame length including CRC (valid on the last descriptor).
    pub fn frame_length(&self) -> (r: usize)
        ensures
            r == rx_frame_length(self.rdes0),
            r < 0x4000,
    {
        let w = self.rdes0;
        assert((w & rdes0::FRAME_LEN_MASK) >> rdes0::FRAME_LEN_SHIFT < 0x4000) by (bit_vector);
        ((w & rdes0::FRAME_LEN_MASK) >> rdes0::FRAME_LEN_SHIFT) as usize
    }

    /// Frame length excluding the 4-byte CRC (0 for shorter frames).
    pub fn payload_length(&self) -> (r: usize)
        ensures
            r == rx_payload_length(self.rdes0),
            r < 0x4000,
    {
        let len = self.frame_length();
        if len >= 4 {
            len - 4
        } else {
            0
        }
    }

    /// Frame has a VLAN tag.
    pub fn has_vlan_tag(&self) -> (r: bool)
        ensures
            r == (self.rdes0 & rdes0::VLAN_TAG != 0),
    {
        (self.rdes0 & rdes0::VLAN_TAG) != 0
    }

    /// Ethernet type frame (vs 802.3 length frame).
    pub fn is_ethernet_frame(&self) -> (r: bool)
        ensures
            r == (self.rdes0 & rdes0::FRAME_TYPE != 0),
    {
        (self.rdes0 & rdes0::FRAME_TYPE) != 0
    }

    /// Timestamp available in RDES6/7.
    pub fn has_timestamp(&self) -> (r: bool)
        ensures
            r == (self.rdes0 & rdes0::TIMESTAMP_AVAIL != 0),
    {
        (self.rdes0 & rdes0::TIMESTAMP_AVAIL) != 0
    }

    /// Timestamp low 32 bits.
    pub fn timestamp_low(&self) -> (r: u32)
        ensures
            r == self.timestamp_low,
    {
        self.timestamp_low
    }

    /// Timestamp high 32 bits.
    pub fn timestamp_high(&self) -> (r: u32)
        ensures
            r == self.timestamp_high,
    {
        self.timestamp_high
    }

    /// Combined 64-bit timestamp.
    pub fn timestamp(&self) -> (r: u64)
        ensures
            r == join_u64(self.timestamp_high, self.timestamp_low),
    {
        let hi = self.timestamp_high;
        let lo = self.timestamp_low;
        let r = ((hi as u64) << 32u64) | (lo as u64);
        assert(((hi as u64) << 32u64) | (lo as u64) == hi as u64 * 0x1_0000_0000u64 + lo as u64)
            by (bit_vector);
        r
    }

    /// Raw extended status (RDES4).
    pub fn extended_status(&self) -> (r: u32)
        ensures
            r == self.extended_status,
    {
        self.extended_status
    }

    /// Extended status available.
    pub fn has_extended_status(&self) -> (r: bool)
        ensures
            r == (self.rdes0 & rdes0::EXT_STATUS != 0),
    {
        (self.rdes0 & rdes0::EXT_STATUS) != 0
    }

    /// IPv4 packet (from extended status).
    pub fn is_ipv4(&self) -> (r: bool)
        ensures
            r == (self.rdes0 & rdes0::EXT_STATUS != 0 && self.extended_status & rdes4::IPV4_PKT
                != 0),
    {
        self.has_extended_status() && (self.extended_status & rdes4::IPV4_PKT) != 0
    }

    /// IPv6 packet (from extended status).
    pub fn is_ipv6(&self) -> (r: bool)
        ensures
            r == (self.rdes0 & rdes0::EXT_STATUS != 0 && self.extended_status & rdes4::IPV6_PKT
                != 0),
    {
        self.has_extended_status() && (self.extended_status & rdes4::IPV6_PKT) != 0
    }

    /// IP header checksum error (from extended status).
    pub fn has_ip_header_error(&self) -> (r: bool)
        ensures
            r == (self.rdes0 & rdes0::EXT_STATUS != 0 && self.extended_status
                & rdes4::IP_HEADER_ERR != 0),
    {
        self.has_extended_status() && (self.extended_status & rdes4::IP_HEADER_ERR) != 0
    }

    /// IP payload checksum error (from extended status).
    pub fn has_ip_payload_error(&self) -> (r: bool)
        ensures
            r == (self.rdes0 & rdes0::EXT_STATUS != 0 && self.extended_status
                & rdes4::IP_PAYLOAD_ERR != 0),
    {
        self.has_extended_status() && (self.extended_status & rdes4::IP_PAYLOAD_ERR) != 0
    }

    /// Buffer address (RDES2).
    pub fn buffer_addr(&self) -> (r: u32)
        ensures
            r == self.buffer1_addr,
    {
        self.buffer1_addr
    }

    /// Next descriptor address (RDES3, chained mode).
    pub fn next_desc_addr(&self) -> (r: u32)
        ensures
            r == self.buffer2_next_desc,
    {
        self.buffer2_next_desc
    }

    /// Configured buffer size.
    pub fn buffer_size(&self) -> (r: usize)
        ensures
            r == self.rdes1 & rdes1::BUFFER1_SIZE_MASK,
    {
        (self.rdes1 & rdes1::BUFFER1_SIZE_MASK) as usize
    }

    /// Clear the status and return the descriptor to the DMA.
    pub fn recycle(&mut self)
        ensures
            final(self).rdes0 == rdes0::OWN,
            final(self).rdes1 == old(self).rdes1,
            rx_same_tail(*final(self), *old(self)),
            rx_owned(final(self).rdes0),
            !rx_last(final(self).rdes0),
            !rx_first(final(self).rdes0),
            !rx_error(final(self).rdes0),
    {
        self.rdes0 = rdes0::OWN;
        assert(rx_owned(rdes0::OWN) && !rx_last(rdes0::OWN) && !rx_first(rdes0::OWN)
            && !rx_error(rdes0::OWN)) by (bit_vector);
    }

    /// Raw RDES0 (for debugging).
    pub fn raw_rdes0(&self) -> (r: u32)
        ensures
            r == self.rdes0,
    {
        self.rdes0
    }

    /// Raw RDES1 (for debugging).
    pub fn raw_rdes1(&self) -> (r: u32)
        ensures
            r == self.rdes1,
    {
        self.rdes1
    }
}

impl Default for RxDescriptor {
    fn default() -> (d: Self)
        ensures
            d == rx_zeroed(),
    {
        Self::new()
    }
}

} // verus!
