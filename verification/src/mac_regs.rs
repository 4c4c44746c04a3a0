//! The MAC and DMA register words the driver programs, kept as an image
//! that the hardware layer writes out, and the encodings behind them:
//! address filter slots, the multicast hash and the flow control word.

use vstd::prelude::*;
use crate::regs::mac::{
    GMACADDR_AE, GMACADDR_MBC_MASK, GMACADDR_MBC_SHIFT, GMACADDR_SA, GMACFC_PLT_MASK,
    GMACFC_PLT_SHIFT, GMACFC_PT_SHIFT, GMACFC_RFE, GMACFC_TFE, GMACFC_UP,
};

verus! {

/// Number of address slots: the station address and four filters.
pub const ADDR_SLOTS: usize = 5;

/// The register words the driver has programmed.
#[derive(Debug, Clone, Copy)]
pub struct EmacRegisters {
    /// MAC configuration
    pub mac_config: u32,
    /// MAC frame filter
    pub frame_filter: u32,
    /// Multicast hash table: bit `i` is hash bucket `i`
    pub hash_table: u64,
    /// Address slot high words: slot 0 is the station address
    pub addr_high: [u32; 5],
    /// Address slot low words
    pub addr_low: [u32; 5],
    /// VLAN tag
    pub vlan_tag: u32,
    /// Flow control
    pub flow_control: u32,
    /// DMA bus mode
    pub dma_bus_mode: u32,
    /// DMA operation mode
    pub dma_operation: u32,
    /// DMA interrupt enable
    pub dma_interrupt_enable: u32,
}

impl EmacRegisters {
    /// Every word zero.
    pub fn new() -> (r: Self)
        ensures
            r.mac_config == 0,
            r.frame_filter == 0,
            r.hash_table == 0,
            forall|i: int| 0 <= i < 5 ==> #[trigger] r.addr_high[i] == 0 && r.addr_low[i] == 0,
            r.vlan_tag == 0,
            r.flow_control == 0,
            r.dma_bus_mode == 0,
            r.dma_operation == 0,
            r.dma_interrupt_enable == 0,
    {
        EmacRegisters {
            mac_config: 0,
            frame_filter: 0,
            hash_table: 0,
            addr_high: [0u32; 5],
            addr_low: [0u32; 5],
            vlan_tag: 0,
            flow_control: 0,
            dma_bus_mode: 0,
            dma_operation: 0,
            dma_interrupt_enable: 0,
        }
    }
}

/// The high address word of `a`: bytes 5 and 4.
pub open spec fn addr_high_bytes(a: [u8; 6]) -> u32 {
    ((a[5] as u32) << 8u32) | (a[4] as u32)
}

/// The low address word of `a`: bytes 3 to 0.
pub open spec fn addr_low_bytes(a: [u8; 6]) -> u32 {
    ((a[3] as u32) << 24u32) | ((a[2] as u32) << 16u32) | ((a[1] as u32) << 8u32) | (a[0] as u32)
}

/// Encode the bytes 5 and 4 of `a` for an address high register.
pub fn encode_addr_high(a: &[u8; 6]) -> (r: u32)
    ensures
        r == addr_high_bytes(*a),
        r <= 0xFFFF,
{
    let hi = ((a[5] as u32) << 8) | (a[4] as u32);
    proof {
        lemma_addr_high_bound(*a);
    }
    hi
}

/// Encode the bytes 3 to 0 of `a` for an address low register.
pub fn encode_addr_low(a: &[u8; 6]) -> (r: u32)
    ensures
        r == addr_low_bytes(*a),
{
    ((a[3] as u32) << 24) | ((a[2] as u32) << 16) | ((a[1] as u32) << 8) | (a[0] as u32)
}

/// Whether address slot `s` of `r` is enabled.
pub open spec fn slot_enabled(r: EmacRegisters, s: int) -> bool {
    r.addr_high[s] & GMACADDR_AE != 0
}

/// Whether address slot `s` of `r` is enabled and holds `a`.
pub open spec fn slot_holds(r: EmacRegisters, s: int, a: [u8; 6]) -> bool {
    &&& slot_enabled(r, s)
    &&& r.addr_high[s] & 0xFFFF == addr_high_bytes(a)
    &&& r.addr_low[s] == addr_low_bytes(a)
}

/// The first filter slot from `s` on (up to slot 4) that holds `a`; 5 if
/// none.
pub open spec fn first_holding(r: EmacRegisters, a: [u8; 6], s: int) -> int
    decreases 5 - s,
{
    if s >= 5 {
        5
    } else if slot_holds(r, s, a) {
        s
    } else {
        first_holding(r, a, s + 1)
    }
}

/// The first filter slot from `s` on (up to slot 4) that is disabled; 5 if
/// none.
pub open spec fn first_free(r: EmacRegisters, s: int) -> int
    decreases 5 - s,
{
    if s >= 5 {
        5
    } else if !slot_enabled(r, s) {
        s
    } else {
        first_free(r, s + 1)
    }
}

/// How many of the filter slots from `s` on (up to slot 4) are enabled.
pub open spec fn enabled_from(r: EmacRegisters, s: int) -> nat
    decreases 5 - s,
{
    if s >= 5 {
        0
    } else {
        (if slot_enabled(r, s) { 1nat } else { 0nat }) + enabled_from(r, s + 1)
    }
}

/// The high word of filter slot content for `a`: enabled, comparing the
/// source address if `source`, the masked bytes in the mask field.
pub open spec fn filter_high_word(a: [u8; 6], source: bool, mask: u8) -> u32 {
    GMACADDR_AE | (if source {
        GMACADDR_SA
    } else {
        0
    }) | (((mask as u32) << GMACADDR_MBC_SHIFT) & GMACADDR_MBC_MASK) | addr_high_bytes(a)
}

/// The high word of a filter slot holding `a`.
pub fn filter_high(a: &[u8; 6], source: bool, mask: u8) -> (r: u32)
    ensures
        r == filter_high_word(*a, source, mask),
        r & GMACADDR_AE != 0,
        r & 0xFFFF == addr_high_bytes(*a),
{
    let hi = encode_addr_high(a);
    let sa = if source {
        GMACADDR_SA
    } else {
        0
    };
    let mbc = ((mask as u32) << GMACADDR_MBC_SHIFT) & GMACADDR_MBC_MASK;
    let r = GMACADDR_AE | sa | mbc | hi;
    proof {
        lemma_filter_high_word(*a, source, mask);
    }
    r
}

/// The flow control word: pause time, pause low threshold, unicast pause
/// detection and the TX and RX enables.
pub open spec fn flow_word(pause_time: u16, threshold: u8, unicast: bool, tx: bool, rx: bool) -> u32 {
    ((pause_time as u32) << GMACFC_PT_SHIFT) | (((threshold as u32) << GMACFC_PLT_SHIFT)
        & GMACFC_PLT_MASK) | (if unicast {
        GMACFC_UP
    } else {
        0
    }) | (if rx {
        GMACFC_RFE
    } else {
        0
    }) | (if tx {
        GMACFC_TFE
    } else {
        0
    })
}

/// The flow control word for the given settings.
pub fn flow_control_word(pause_time: u16, threshold: u8, unicast: bool, tx: bool, rx: bool) -> (r:
    u32)
    ensures
        r == flow_word(pause_time, threshold, unicast, tx, rx),
{
    let up = if unicast {
        GMACFC_UP
    } else {
        0
    };
    let rfe = if rx {
        GMACFC_RFE
    } else {
        0
    };
    let tfe = if tx {
        GMACFC_TFE
    } else {
        0
    };
    ((pause_time as u32) << GMACFC_PT_SHIFT) | (((threshold as u32) << GMACFC_PLT_SHIFT)
        & GMACFC_PLT_MASK) | up | rfe | tfe
}

/// The CRC-32 polynomial, bit-reversed.
pub const CRC32_POLY: u32 = 0xEDB8_8320;

/// The little-endian CRC-32 register `crc` after bit `j` of byte `b`.
pub open spec fn crc_bit(crc: u32, b: u8, j: u32) -> u32 {
    if ((crc ^ ((b as u32) >> j)) & 1) != 0 {
        (crc >> 1u32) ^ CRC32_POLY
    } else {
        crc >> 1u32
    }
}

/// The CRC register after the first `k` bits of `b`, least significant
/// first.
pub open spec fn crc_bits(crc: u32, b: u8, k: nat) -> u32
    decreases k,
{
    if k == 0 {
        crc
    } else {
        crc_bit(crc_bits(crc, b, (k - 1) as nat), b, (k - 1) as u32)
    }
}

/// The CRC register after the bytes of `data`, first byte first.
pub open spec fn crc32_le(crc: u32, data: Seq<u8>) -> u32
    decreases data.len(),
{
    if data.len() == 0 {
        crc
    } else {
        crc_bits(crc32_le(crc, data.drop_last()), data.last(), 8)
    }
}

/// The low `k` bits of `x` in reverse order.
pub open spec fn reversed_bits(x: u32, k: nat) -> u32
    decreases k,
{
    if k == 0 {
        0
    } else {
        (reversed_bits(x, (k - 1) as nat) << 1u32) | ((x >> ((k - 1) as u32)) & 1)
    }
}

/// The hash bucket of the address `a`: the upper six bits of the
/// bit-reversed, complemented CRC-32 of its six bytes.
pub open spec fn hash_bucket(a: [u8; 6]) -> u32 {
    reversed_bits(!crc32_le(0xFFFF_FFFF, a@), 6)
}

/// The CRC-32 register (initial value all ones, no final complement) after
/// the bytes of `data`.
pub fn crc32(data: &[u8]) -> (r: u32)
    ensures
        r == crc32_le(0xFFFF_FFFF, data@),
{
    let mut crc: u32 = 0xFFFF_FFFF;
    let mut i: usize = 0;
    while i < data.len()
        invariant
            i <= data@.len(),
            crc == crc32_le(0xFFFF_FFFF, data@.take(i as int)),
        decreases data@.len() - i,
    {
        let b = data[i];
        let ghost start = crc;
        let mut j: u32 = 0;
        while j < 8
            invariant
                j <= 8,
                b == data@[i as int],
                crc == crc_bits(start, b, j as nat),
            decreases 8 - j,
        {
            if ((crc ^ ((b as u32) >> j)) & 1) != 0 {
                crc = (crc >> 1) ^ CRC32_POLY;
            } else {
                crc = crc >> 1;
            }
            j = j + 1;
        }
        proof {
            assert(data@.take(i + 1).drop_last() =~= data@.take(i as int));
        }
        i = i + 1;
    }
    proof {
        assert(data@.take(data@.len() as int) =~= data@);
    }
    crc
}

/// The hash bucket of `addr` in the 64-bit multicast hash table.
pub fn hash_index(addr: &[u8; 6]) -> (r: u8)
    ensures
        r == hash_bucket(*addr),
        r < 64,
{
    let crc = crc32(addr.as_slice());
    let x = !crc;
    let mut r: u32 = 0;
    let mut i: u32 = 0;
    while i < 6
        invariant
            i <= 6,
            x == !crc32_le(0xFFFF_FFFF, addr@),
            r == reversed_bits(x, i as nat),
        decreases 6 - i,
    {
        let bit = (x >> i) & 1;
        r = (r << 1) | bit;
        i = i + 1;
    }
    proof {
        lemma_hash_bucket_bound(*addr);
    }
    r as u8
}

/// The high address word of `a` fits in 16 bits.
proof fn lemma_addr_high_bound(a: [u8; 6])
    ensures
        addr_high_bytes(a) <= 0xFFFF,
{
    let x = a[5] as u32;
    let y = a[4] as u32;
    assert(x <= 0xFF && y <= 0xFF ==> (x << 8u32) | y <= 0xFFFF) by (bit_vector);
}

/// A filter slot word for `a` is enabled and carries the high bytes of `a`.
pub(crate) proof fn lemma_filter_high_word(a: [u8; 6], source: bool, mask: u8)
    ensures
        filter_high_word(a, source, mask) & GMACADDR_AE != 0,
        filter_high_word(a, source, mask) & 0xFFFF == addr_high_bytes(a),
{
    lemma_addr_high_bound(a);
    let hi = addr_high_bytes(a);
    let sa: u32 = if source {
        GMACADDR_SA
    } else {
        0
    };
    let m = mask as u32;
    let mbc = (m << 24u32) & 0x3F00_0000u32;
    assert(hi <= 0xFFFF && (sa == 0 || sa == 0x4000_0000u32) && mbc == (m << 24u32) & 0x3F00_0000u32
        ==> ((0x8000_0000u32 | sa | mbc | hi) & 0x8000_0000u32 != 0 && (0x8000_0000u32 | sa | mbc
        | hi) & 0xFFFF == hi)) by (bit_vector);
}

/// The low `k` bits of `x` reversed stay below `2^k`.
proof fn lemma_reversed_bits_bound(x: u32, k: nat)
    requires
        k <= 31,
    ensures
        reversed_bits(x, k) < (1u32 << (k as u32)),
    decreases k,
{
    if k == 0 {
        assert((1u32 << 0u32) == 1) by (bit_vector);
    } else {
        let j = (k - 1) as u32;
        lemma_reversed_bits_bound(x, (k - 1) as nat);
        let r = reversed_bits(x, (k - 1) as nat);
        assert(r < (1u32 << j) && j < 31 ==> ((r << 1u32) | ((x >> j) & 1)) < (1u32 << (j + 1)))
            by (bit_vector);
    }
}

/// Reading an address back from its register words: a low word equal to
/// bytes 0 to 3 of it, lowest first, gives back those bytes, and a high
/// word whose low half equals bytes 4 and 5 gives back those.
proof fn lemma_addr_words_bytes(l: u32, h: u32, a0: u8, a1: u8, a2: u8, a3: u8, a4: u8, a5: u8)
    by (bit_vector)
    requires
        l == ((a3 as u32) << 24u32) | ((a2 as u32) << 16u32) | ((a1 as u32) << 8u32) | (a0 as u32),
        h & 0xFFFFu32 == ((a5 as u32) << 8u32) | (a4 as u32),
    ensures
        l & 0xFFu32 == a0 as u32,
        (l >> 8u32) & 0xFFu32 == a1 as u32,
        (l >> 16u32) & 0xFFu32 == a2 as u32,
        l >> 24u32 == a3 as u32,
        h & 0xFFu32 == a4 as u32,
        (h >> 8u32) & 0xFFu32 == a5 as u32,
{
}

/// The first slot from `s` on that holds `a`, when there is one, does.
proof fn lemma_first_holding_holds(r: EmacRegisters, a: [u8; 6], s: int)
    requires
        first_holding(r, a, s) < 5,
    ensures
        s <= first_holding(r, a, s),
        slot_holds(r, first_holding(r, a, s), a),
    decreases 5 - s,
{
    if s < 5 && !slot_holds(r, s, a) {
        lemma_first_holding_holds(r, a, s + 1);
    }
}

/// A filter slot that the lookup finds for an address holds that address
/// byte for byte: it is enabled, its low word holds bytes 0 to 3, lowest
/// first, and the low half of its high word bytes 4 and 5. So the lookup
/// never finds the same slot for two different addresses.
pub proof fn lemma_found_slot_holds_address(r: EmacRegisters, a: [u8; 6], b: [u8; 6])
    requires
        first_holding(r, a, 1) < 5,
    ensures
        ({
            let s = first_holding(r, a, 1);
            &&& 1 <= s < 5
            &&& r.addr_high[s] & GMACADDR_AE != 0
            &&& r.addr_low[s] & 0xFF == a[0] as u32
            &&& (r.addr_low[s] >> 8) & 0xFF == a[1] as u32
            &&& (r.addr_low[s] >> 16) & 0xFF == a[2] as u32
            &&& r.addr_low[s] >> 24 == a[3] as u32
            &&& r.addr_high[s] & 0xFF == a[4] as u32
            &&& (r.addr_high[s] >> 8) & 0xFF == a[5] as u32
            &&& first_holding(r, b, 1) == s ==> a == b
        }),
{
    broadcast use vstd::array::group_array_axioms;
    let s = first_holding(r, a, 1);
    lemma_first_holding_holds(r, a, 1);
    lemma_addr_words_bytes(r.addr_low[s], r.addr_high[s], a[0], a[1], a[2], a[3], a[4], a[5]);
    if first_holding(r, b, 1) == s {
        lemma_first_holding_holds(r, b, 1);
        lemma_addr_words_bytes(r.addr_low[s], r.addr_high[s], b[0], b[1], b[2], b[3], b[4], b[5]);
        assert(a@ =~= b@);
    }
}

/// Every address falls into one of the 64 buckets of the hash table.
pub proof fn lemma_hash_bucket_bound(a: [u8; 6])
    ensures
        hash_bucket(a) < 64,
{
    lemma_reversed_bits_bound(!crc32_le(0xFFFF_FFFF, a@), 6);
    assert((1u32 << 6u32) == 64) by (bit_vector);
}

/// The hash table bit of the bucket of `a`.
pub open spec fn bucket_bit(a: [u8; 6]) -> u64 {
    1u64 << hash_bucket(a)
}

/// Setting the bucket bit of `a` in a hash table makes `a` pass the hash
/// filter; every address that passed before still passes, and one that did
/// not passes now only if it shares the bucket of `a`.
pub proof fn lemma_hash_add_then_check(table: u64, a: [u8; 6], other: [u8; 6])
    ensures
        (table | bucket_bit(a)) & bucket_bit(a) != 0,
        ((table | bucket_bit(a)) & bucket_bit(other) != 0) == (table & bucket_bit(other) != 0
            || hash_bucket(a) == hash_bucket(other)),
{
    lemma_hash_bucket_bound(a);
    lemma_hash_bucket_bound(other);
    let i = hash_bucket(a);
    let j = hash_bucket(other);
    assert(i < 64 && j < 64 ==> (table | (1u64 << i)) & (1u64 << i) != 0 && (((table | (1u64 << i))
        & (1u64 << j) != 0) == (table & (1u64 << j) != 0 || i == j))) by (bit_vector);
}

/// Clearing the bucket bit of `a` in a hash table makes `a`, and every
/// address in its bucket, fail the hash filter; an address of another
/// bucket passes exactly when it passed before.
pub proof fn lemma_hash_remove_then_check(table: u64, a: [u8; 6], other: [u8; 6])
    ensures
        (table & !bucket_bit(a)) & bucket_bit(a) == 0,
        ((table & !bucket_bit(a)) & bucket_bit(other) != 0) == (table & bucket_bit(other) != 0
            && hash_bucket(a) != hash_bucket(other)),
{
    lemma_hash_bucket_bound(a);
    lemma_hash_bucket_bound(other);
    let i = hash_bucket(a);
    let j = hash_bucket(other);
    assert(i < 64 && j < 64 ==> (table & !(1u64 << i)) & (1u64 << i) == 0 && (((table & !(1u64
        << i)) & (1u64 << j) != 0) == (table & (1u64 << j) != 0 && i != j))) by (bit_vector);
}

} // verus!
