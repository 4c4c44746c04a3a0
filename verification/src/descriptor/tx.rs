//! TX DMA descriptor for frame transmission.

use vstd::prelude::*;
use super::bits::{tdes0, tdes1};
use super::rx::join_u64;

verus! {

/// TX DMA descriptor (eight 32-bit words, 32 bytes).
#[derive(Debug, Clone, Copy)]
pub struct TxDescriptor {
    /// TDES0: status and control bits
    pub tdes0: u32,
    /// TDES1: buffer sizes
    pub tdes1: u32,
    /// TDES2: buffer 1 address
    pub buffer1_addr: u32,
    /// TDES3: next descriptor address (chained mode)
    pub buffer2_next_desc: u32,
    /// Reserved word
    pub reserved1: u32,
    /// Reserved word
    pub reserved2: u32,
    /// Timestamp low (when timestamping is enabled)
    pub timestamp_low: u32,
    /// Timestamp high (when timestamping is enabled)
    pub timestamp_high: u32,
}

/// The descriptor words other than TDES0 and TDES1 are those of `b`.
pub open spec fn tx_same_tail(a: TxDescriptor, b: TxDescriptor) -> bool {
    &&& a.buffer1_addr == b.buffer1_addr
    &&& a.buffer2_next_desc == b.buffer2_next_desc
    &&& a.reserved1 == b.reserved1
    &&& a.reserved2 == b.reserved2
    &&& a.timestamp_low == b.timestamp_low
    &&& a.timestamp_high == b.timestamp_high
}

/// A descriptor with every word zero.
pub open spec fn tx_zeroed() -> TxDescriptor {
    TxDescriptor {
        tdes0: 0,
        tdes1: 0,
        buffer1_addr: 0,
        buffer2_next_desc: 0,
        reserved1: 0,
        reserved2: 0,
        timestamp_low: 0,
        timestamp_high: 0,
    }
}

/// Whether the DMA owns a descriptor with status word `w`.
pub open spec fn tx_owned(w: u32) -> bool {
    w & tdes0::OWN != 0
}

/// The TDES0 control word that `prepare` writes for a segment.
pub open spec fn tx_prepare_flags(first: bool, last: bool) -> u32 {
    tdes0::SECOND_ADDR_CHAINED | (if first { tdes0::FIRST_SEGMENT } else { 0 }) | (if last {
        tdes0::LAST_SEGMENT | tdes0::INTERRUPT_ON_COMPLETE
    } else {
        0
    })
}

impl TxDescriptor {
    /// Size of the descriptor in bytes
    pub const SIZE: usize = 32;

    /// Create a new zeroed TX descriptor.
    pub fn new() -> (d: Self)
        ensures
            d == tx_zeroed(),
    {
        TxDescriptor {
            tdes0: 0,
            tdes1: 0,
            buffer1_addr: 0,
            buffer2_next_desc: 0,
            reserved1: 0,
            reserved2: 0,
            timestamp_low: 0,
            timestamp_high: 0,
        }
    }

    /// Initialize the descriptor for chained mode (owned by the CPU).
    pub fn setup_chained(&mut self, buffer: u32, next_desc: u32)
        ensures
            final(self).buffer1_addr == buffer,
            final(self).buffer2_next_desc == next_desc,
            final(self).tdes0 == tdes0::SECOND_ADDR_CHAINED,
            final(self).tdes1 == 0,
            final(self).reserved1 == old(self).reserved1,
            final(self).reserved2 == old(self).reserved2,
            final(self).timestamp_low == old(self).timestamp_low,
            final(self).timestamp_high == old(self).timestamp_high,
    {
        self.buffer1_addr = buffer;
        self.buffer2_next_desc = next_desc;
        self.tdes0 = tdes0::SECOND_ADDR_CHAINED;
        self.tdes1 = 0;
    }

    /// Initialize as end of ring (the last descriptor wraps to `first_desc`).
    pub fn setup_end_of_ring(&mut self, buffer: u32, first_desc: u32)
        ensures
            final(self).buffer1_addr == buffer,
            final(self).buffer2_next_desc == first_desc,
            final(self).tdes0 == tdes0::SECOND_ADDR_CHAINED | tdes0::TX_END_OF_RING,
            final(self).tdes1 == 0,
            final(self).reserved1 == old(self).reserved1,
            final(self).reserved2 == old(self).reserved2,
            final(self).timestamp_low == old(self).timestamp_low,
            final(self).timestamp_high == old(self).timestamp_high,
    {
        self.buffer1_addr = buffer;
        self.buffer2_next_desc = first_desc;
        self.tdes0 = tdes0::SECOND_ADDR_CHAINED | tdes0::TX_END_OF_RING;
        self.tdes1 = 0;
    }

    /// Check if the descriptor is owned by the DMA.
    pub fn is_owned(&self) -> (r: bool)
        ensures
            r == tx_owned(self.tdes0),
    {
        (self.tdes0 & tdes0::OWN) != 0
    }

    /// Give ownership to the DMA for transmission; other bits are kept.
    pub fn set_owned(&mut self)
        ensures
            final(self).tdes0 == old(self).tdes0 | tdes0::OWN,
            final(self).tdes1 == old(self).tdes1,
            tx_same_tail(*final(self), *old(self)),
            tx_owned(final(self).tdes0),
            forall|m: u32| m & tdes0::OWN == 0 ==> (final(self).tdes0 & m) == (old(self).tdes0 & m),
    {
        let w = self.tdes0;
        self.tdes0 = w | tdes0::OWN;
        proof {
            crate::regs::lemma_word_bits();
        }
    }

    /// Take ownership from the DMA; other bits are kept.
    pub fn clear_owned(&mut self)
        ensures
            final(self).tdes0 == old(self).tdes0 & !tdes0::OWN,
            final(self).tdes1 == old(self).tdes1,
            tx_same_tail(*final(self), *old(self)),
            !tx_owned(final(self).tdes0),
            forall|m: u32| m & tdes0::OWN == 0 ==> (final(self).tdes0 & m) == (old(self).tdes0 & m),
    {
        let w = self.tdes0;
        self.tdes0 = w & !tdes0::OWN;
        proof {
            crate::regs::lemma_word_bits();
        }
    }

    /// Prepare the descriptor for one segment of `len` bytes (OWN not set).
    pub fn prepare(&mut self, len: usize, first: bool, last: bool)
        ensures
            final(self).tdes0 == tx_prepare_flags(first, last),
            final(self).tdes1 == (len as u32) & tdes1::BUFFER1_SIZE_MASK,
            tx_same_tail(*final(self), *old(self)),
            !tx_owned(final(self).tdes0),
            len < 0x2000 ==> final(self).tdes1 == len,
    {
        let fs: u32 = if first { tdes0::FIRST_SEGMENT } else { 0 };
        let ls: u32 = if last { tdes0::LAST_SEGMENT | tdes0::INTERRUPT_ON_COMPLETE } else { 0 };
        let flags = tdes0::SECOND_ADDR_CHAINED | fs | ls;
        let l = #[verifier::truncate] (len as u32);
        self.tdes1 = l & tdes1::BUFFER1_SIZE_MASK;
        self.tdes0 = flags;
        assert(((fs == 0x1000_0000u32 || fs == 0) && (ls == (0x2000_0000u32 | 0x4000_0000u32) || ls
            == 0) ==> (0x0010_0000u32 | fs | ls) & 0x8000_0000u32 == 0) && (l < 0x2000 ==> l
            & tdes1::BUFFER1_SIZE_MASK == l)) by (bit_vector);
    }

    /// Prepare one segment and give it to the DMA.
    pub fn prepare_and_submit(&mut self, len: usize, first: bool, last: bool)
        ensures
            final(self).tdes0 == tx_prepare_flags(first, last) | tdes0::OWN,
            final(self).tdes1 == (len as u32) & tdes1::BUFFER1_SIZE_MASK,
            tx_same_tail(*final(self), *old(self)),
            tx_owned(final(self).tdes0),
    {
        self.prepare(len, first, last);
        self.set_owned();
    }

    /// Set the checksum insertion mode (bits 23:22); other bits are kept.
    pub fn set_checksum_mode(&mut self, mode: u32)
        ensures
            final(self).tdes0 == (old(self).tdes0 & !tdes0::CHECKSUM_INSERT_MASK) | ((mode
                << tdes0::CHECKSUM_INSERT_SHIFT) & tdes0::CHECKSUM_INSERT_MASK),
            mode < 4 ==> (final(self).tdes0 & tdes0::CHECKSUM_INSERT_MASK)
                >> tdes0::CHECKSUM_INSERT_SHIFT == mode,
            final(self).tdes0 & tdes0::OWN == old(self).tdes0 & tdes0::OWN,
            final(self).tdes1 == old(self).tdes1,
            tx_same_tail(*final(self), *old(self)),
    {
        let v = self.tdes0;
        let nv = (v & !tdes0::CHECKSUM_INSERT_MASK) | ((mode << tdes0::CHECKSUM_INSERT_SHIFT)
            & tdes0::CHECKSUM_INSERT_MASK);
        assert((mode < 4 ==> (((v & !0x00C0_0000u32) | ((mode << 22u32) & 0x00C0_0000u32))
            & 0x00C0_0000u32) >> 22u32 == mode) && ((v & !0x00C0_0000u32) | ((mode << 22u32)
            & 0x00C0_0000u32)) & 0x8000_0000u32 == v & 0x8000_0000u32) by (bit_vector);
        self.tdes0 = nv;
    }

    /// Enable timestamp capture for this frame; other bits are kept.
    pub fn enable_timestamp(&mut self)
        ensures
            final(self).tdes0 == old(self).tdes0 | tdes0::TX_TIMESTAMP_EN,
            final(self).tdes1 == old(self).tdes1,
            tx_same_tail(*final(self), *old(self)),
    {
        self.tdes0 = self.tdes0 | tdes0::TX_TIMESTAMP_EN;
    }

    /// Check if the transmission had errors (error summary bit).
    pub fn has_error(&self) -> (r: bool)
        ensures
            r == (self.tdes0 & tdes0::ERR_SUMMARY != 0),
    {
        (self.tdes0 & tdes0::ERR_SUMMARY) != 0
    }

    /// All error flags from TDES0.
    pub fn error_flags(&self) -> (r: u32)
        ensures
            r == self.tdes0 & tdes0::ALL_ERRORS,
    {
        self.tdes0 & tdes0::ALL_ERRORS
    }

    /// Collision count (half-duplex mode).
    pub fn collision_count(&self) -> (r: u8)
        ensures
            r == (self.tdes0 & tdes0::COLLISION_COUNT_MASK) >> tdes0::COLLISION_COUNT_SHIFT,
            r < 16,
    {
        let w = self.tdes0;
        assert((w & 0x78u32) >> 3u32 < 16) by (bit_vector);
        ((w & tdes0::COLLISION_COUNT_MASK) >> tdes0::COLLISION_COUNT_SHIFT) as u8
    }

    /// Check if a timestamp was captured.
    pub fn has_timestamp(&self) -> (r: bool)
        ensures
            r == (self.tdes0 & tdes0::TX_TIMESTAMP_STATUS != 0),
    {
        (self.tdes0 & tdes0::TX_TIMESTAMP_STATUS) != 0
    }

    /// Captured timestamp, low 32 bits.
    pub fn timestamp_low(&self) -> (r: u32)
        ensures
            r == self.timestamp_low,
    {
        self.timestamp_low
    }

    /// Captured timestamp, high 32 bits.
    pub fn timestamp_high(&self) -> (r: u32)
        ensures
            r == self.timestamp_high,
    {
        self.timestamp_high
    }

    /// Full 64-bit timestamp.
    pub fn timestamp(&self) -> (r: u64)
        ensures
            r == join_u64(self.timestamp_high, self.timestamp_low),
    {
        let hi = self.timestamp_high;
        let lo = self.timestamp_low;
        let r = ((hi as u64) << 32u64) | (lo as u64);
        assert(((hi as u64) << 32u64) | (lo as u64) == hi as u64 * 0x1_0000_0000u64 + lo as u64)
            by (bit_vector);
        r
    }

    /// Buffer address.
    pub fn buffer_addr(&self) -> (r: u32)
        ensures
            r == self.buffer1_addr,
    {
        self.buffer1_addr
    }

    /// Next descriptor address (chained mode).
    pub fn next_desc_addr(&self) -> (r: u32)
        ensures
            r == self.buffer2_next_desc,
    {
        self.buffer2_next_desc
    }

    /// Reset the descriptor: CPU-owned, chained, no length; the chain link is kept.
    pub fn reset(&mut self)
        ensures
            final(self).tdes0 == tdes0::SECOND_ADDR_CHAINED,
            final(self).tdes1 == 0,
            tx_same_tail(*final(self), *old(self)),
            !tx_owned(final(self).tdes0),
    {
        let next = self.buffer2_next_desc;
        self.tdes0 = tdes0::SECOND_ADDR_CHAINED;
        self.tdes1 = 0;
        self.buffer2_next_desc = next;
        assert(!tx_owned(tdes0::SECOND_ADDR_CHAINED)) by (bit_vector);
    }

    /// Raw TDES0 (for debugging).
    pub fn raw_tdes0(&self) -> (r: u32)
        ensures
            r == self.tdes0,
    {
        self.tdes0
    }

    /// Raw TDES1 (for debugging).
    pub fn raw_tdes1(&self) -> (r: u32)
        ensures
            r == self.tdes1,
    {
        self.tdes1
    }
}

impl Default for TxDescriptor {
    fn default() -> (d: Self)
        ensures
            d == tx_zeroed(),
    {
        Self::new()
    }
}

} // verus!
