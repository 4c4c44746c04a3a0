//! DMA engine managing the TX/RX descriptor rings and their buffers.

use vstd::prelude::*;
use crate::descriptor::bits::{rdes0, rdes1, tdes0, tdes1};
use crate::error::{DmaError, Error, IoError, Result};
use crate::descriptor::rx::{
    RxDescriptor, rx_zeroed, rx_owned, rx_last, rx_first, rx_error, rx_payload_length,
};
use crate::descriptor::tx::{TxDescriptor, tx_zeroed, tx_owned, tx_prepare_flags};
use crate::ring::DescriptorRing;

verus! {

/// DMA engine with its descriptor rings and buffers.
///
/// * `RX_BUFS` - number of receive buffers/descriptors
/// * `TX_BUFS` - number of transmit buffers/descriptors
/// * `BUF_SIZE` - size of each buffer in bytes
pub struct DmaEngine<const RX_BUFS: usize, const TX_BUFS: usize, const BUF_SIZE: usize> {
    /// RX descriptor ring
    rx_ring: DescriptorRing<RxDescriptor, RX_BUFS>,
    /// TX descriptor ring
    tx_ring: DescriptorRing<TxDescriptor, TX_BUFS>,
    /// RX data buffers
    rx_buffers: [[u8; BUF_SIZE]; RX_BUFS],
    /// TX data buffers
    tx_buffers: [[u8; BUF_SIZE]; TX_BUFS],
    /// TX control flags to apply to frames
    tx_ctrl_flags: u32,
    /// Whether the engine has been initialized
    initialized: bool,
}

/// Ring index `off` places after the cursor `cur` in a ring of `n` entries.
pub open spec fn ring_pos(cur: int, off: int, n: int) -> int {
    (cur + off) % n
}

/// The first offset at or after `off` (and before the ring size) whose RX
/// descriptor is owned by the DMA or ends a frame; the ring size if none.
pub open spec fn rx_stop(s: Seq<RxDescriptor>, cur: int, off: int) -> int
    decreases s.len() - off,
{
    if off >= s.len() {
        s.len() as int
    } else if rx_owned(s[ring_pos(cur, off, s.len() as int)].rdes0) || rx_last(
        s[ring_pos(cur, off, s.len() as int)].rdes0,
    ) {
        off
    } else {
        rx_stop(s, cur, off + 1)
    }
}

/// The first offset at or after `off` whose RX descriptor is owned by the
/// DMA; the ring size if none.
pub open spec fn rx_owned_stop(s: Seq<RxDescriptor>, cur: int, off: int) -> int
    decreases s.len() - off,
{
    if off >= s.len() {
        s.len() as int
    } else if rx_owned(s[ring_pos(cur, off, s.len() as int)].rdes0) {
        off
    } else {
        rx_owned_stop(s, cur, off + 1)
    }
}

/// How many of the first `m` RX descriptors after the cursor end a frame.
pub open spec fn rx_last_count(s: Seq<RxDescriptor>, cur: int, m: int) -> nat
    decreases m,
{
    if m <= 0 {
        0
    } else {
        rx_last_count(s, cur, m - 1) + (if rx_last(s[ring_pos(cur, m - 1, s.len() as int)].rdes0) {
            1nat
        } else {
            0nat
        })
    }
}

/// How many of the first `k` RX descriptors (by index) the DMA owns.
pub open spec fn rx_owned_count(s: Seq<RxDescriptor>, k: int) -> nat
    decreases k,
{
    if k <= 0 {
        0
    } else {
        rx_owned_count(s, k - 1) + (if rx_owned(s[k - 1].rdes0) { 1nat } else { 0nat })
    }
}

/// The first offset at or after `off` whose TX descriptor is owned by the
/// DMA; the ring size if none.
pub open spec fn tx_owned_stop(s: Seq<TxDescriptor>, cur: int, off: int) -> int
    decreases s.len() - off,
{
    if off >= s.len() {
        s.len() as int
    } else if tx_owned(s[ring_pos(cur, off, s.len() as int)].tdes0) {
        off
    } else {
        tx_owned_stop(s, cur, off + 1)
    }
}

/// How many of the first `k` TX descriptors (by index) the CPU owns.
pub open spec fn tx_free_count(s: Seq<TxDescriptor>, k: int) -> nat
    decreases k,
{
    if k <= 0 {
        0
    } else {
        tx_free_count(s, k - 1) + (if !tx_owned(s[k - 1].tdes0) { 1nat } else { 0nat })
    }
}

/// The union of the error flags of the first `k` TX descriptors (by index)
/// that the CPU owns and whose error summary bit is set.
pub open spec fn tx_error_union(s: Seq<TxDescriptor>, k: int) -> u32
    decreases k,
{
    if k <= 0 {
        0
    } else {
        let d = s[k - 1];
        if !tx_owned(d.tdes0) && d.tdes0 & tdes0::ERR_SUMMARY != 0 {
            tx_error_union(s, k - 1) | (d.tdes0 & tdes0::ALL_ERRORS)
        } else {
            tx_error_union(s, k - 1)
        }
    }
}

/// The number of buffers a frame of `len` bytes occupies: `len` divided by
/// the buffer size, rounded up.
pub open spec fn desc_count(len: int, buf: int) -> int {
    len / buf + (if len % buf != 0 { 1int } else { 0int })
}

/// The length `peek_frame_length` reports for the RX ring `s` with cursor `cur`:
/// the payload length of the frame starting at the cursor once its last
/// descriptor has been written back, and nothing for a DMA-owned, erroneous,
/// incomplete or headless frame.
pub open spec fn rx_peek(s: Seq<RxDescriptor>, cur: int) -> Option<nat> {
    let n = s.len() as int;
    let w = s[cur].rdes0;
    if rx_owned(w) || rx_error(w) {
        None
    } else if rx_first(w) && rx_last(w) {
        Some(rx_payload_length(w))
    } else if rx_first(w) {
        let k = rx_stop(s, cur, 1);
        if k < n && !rx_owned(s[ring_pos(cur, k, n)].rdes0) {
            Some(rx_payload_length(s[ring_pos(cur, k, n)].rdes0))
        } else {
            None
        }
    } else {
        None
    }
}

/// RX descriptor `d` handed back to the DMA: the status word holds only
/// the ownership bit, the other words are kept.
pub open spec fn rx_recycled(d: RxDescriptor) -> RxDescriptor {
    RxDescriptor { rdes0: rdes0::OWN, ..d }
}

/// How many RX descriptors `flush_rx_frame` hands back: those from the
/// cursor up to the first one the DMA owns or that ends a frame, the latter
/// included.
pub open spec fn rx_flush_count(s: Seq<RxDescriptor>, cur: int) -> int {
    let n = s.len() as int;
    let f = rx_stop(s, cur, 0);
    if f < n && !rx_owned(s[ring_pos(cur, f, n)].rdes0) {
        f + 1
    } else {
        f
    }
}

/// The length of the frame that starts at the cursor: the payload length
/// written into the descriptor that ends it, or 0 when no CPU-owned
/// descriptor of the ring ends it.
pub open spec fn rx_frame_len(s: Seq<RxDescriptor>, cur: int) -> int {
    let n = s.len() as int;
    let f = rx_stop(s, cur, 0);
    if f < n {
        rx_payload_length(s[ring_pos(cur, f, n)].rdes0) as int
    } else {
        0
    }
}

/// Whether the frame that starts at the cursor is not complete yet: a
/// DMA-owned descriptor comes before its end, or no descriptor of the ring
/// ends it.
pub open spec fn rx_frame_pending(s: Seq<RxDescriptor>, cur: int) -> bool {
    let n = s.len() as int;
    let f = rx_stop(s, cur, 0);
    f >= n || rx_owned(s[ring_pos(cur, f, n)].rdes0)
}

/// The stop is the same from every offset up to it.
pub proof fn lemma_rx_stop_from(s: Seq<RxDescriptor>, cur: int, i: int)
    requires
        0 <= i <= rx_stop(s, cur, 0),
        s.len() > 0,
    ensures
        rx_stop(s, cur, i) == rx_stop(s, cur, 0),
    decreases i,
{
    lemma_rx_stop(s, cur, 0);
    if i > 0 {
        lemma_rx_stop_from(s, cur, i - 1);
        assert(!rx_owned(s[ring_pos(cur, i - 1, s.len() as int)].rdes0));
    }
}

/// Offset `n` is offset 0 again.
pub proof fn lemma_ring_wrap(cur: int, n: int)
    requires
        n > 0,
    ensures
        ring_pos(cur, n, n) == ring_pos(cur, 0, n),
{
    vstd::arithmetic::div_mod::lemma_mod_add_multiples_vanish(cur, n);
}

/// Whether `receive` can copy the frame at the cursor of the RX ring `s`
/// into a buffer of `cap` bytes without reading past the buffers of the
/// descriptors the frame spans: when it gets to copying, the frame length is
/// at most those buffers' total size.
pub open spec fn rx_copy_fits(s: Seq<RxDescriptor>, cur: int, cap: int, buf: int) -> bool {
    let w = s[cur].rdes0;
    (!rx_owned(w) && rx_first(w) && !rx_error(w) && !rx_frame_pending(s, cur) && rx_frame_len(
        s,
        cur,
    ) <= cap) ==> rx_frame_len(s, cur) <= rx_flush_count(s, cur) * buf
}

/// Byte `p` of a frame stored across buffers of `buf` bytes sits at offset
/// `p % buf` of the buffer `p / buf` places on.
pub proof fn lemma_frame_offset(i: int, j: int, buf: int)
    requires
        0 <= i,
        0 <= j < buf,
    ensures
        (i * buf + j) / buf == i,
        (i * buf + j) % buf == j,
{
    vstd::arithmetic::div_mod::lemma_fundamental_div_mod_converse(i * buf + j, buf, i, j);
}

/// RX descriptor `d` set up to receive into `buffer` of `size` bytes and to
/// chain to the descriptor at `next`, owned by the DMA.
pub open spec fn rx_chained(d: RxDescriptor, buffer: u32, size: usize, next: u32) -> RxDescriptor {
    RxDescriptor {
        rdes0: rdes0::OWN,
        rdes1: rdes1::SECOND_ADDR_CHAINED | ((size as u32) & rdes1::BUFFER1_SIZE_MASK),
        buffer1_addr: buffer,
        buffer2_next_desc: next,
        ..d
    }
}

/// TX descriptor `d` set up to send from `buffer` and to chain to the
/// descriptor at `next`, owned by the CPU.
pub open spec fn tx_chained(d: TxDescriptor, buffer: u32, next: u32) -> TxDescriptor {
    TxDescriptor {
        tdes0: tdes0::SECOND_ADDR_CHAINED,
        tdes1: 0,
        buffer1_addr: buffer,
        buffer2_next_desc: next,
        ..d
    }
}

/// TX descriptor `d` after `reset`: chained, empty and owned by the CPU.
pub open spec fn tx_cleared(d: TxDescriptor) -> TxDescriptor {
    TxDescriptor { tdes0: tdes0::SECOND_ADDR_CHAINED, tdes1: 0, ..d }
}

/// The bus address of descriptor `i` of a ring at `base`.
pub open spec fn desc_addr(base: u32, i: int) -> int {
    base + i * 32
}

/// Facts on the number of buffers a frame of `len` bytes occupies.
pub proof fn lemma_desc_count(len: int, buf: int, t: int)
    requires
        0 < buf,
        0 <= len <= t * buf,
    ensures
        0 <= desc_count(len, buf) <= t,
        len > 0 ==> desc_count(len, buf) >= 1,
        len > 0 ==> (desc_count(len, buf) - 1) * buf < len,
        len <= desc_count(len, buf) * buf,
{
    let q = len / buf;
    let r = len % buf;
    vstd::arithmetic::div_mod::lemma_fundamental_div_mod(len, buf);
    vstd::arithmetic::div_mod::lemma_mod_bound(len, buf);
    assert(len == buf * q + r);
    assert(0 <= q) by (nonlinear_arith)
        requires
            len == buf * q + r,
            0 <= r < buf,
            0 <= len,
    ;
    assert(q <= t) by (nonlinear_arith)
        requires
            len == buf * q + r,
            0 <= r < buf,
            len <= t * buf,
    ;
    assert(r != 0 ==> q + 1 <= t) by (nonlinear_arith)
        requires
            len == buf * q + r,
            0 <= r < buf,
            len <= t * buf,
    ;
    let c = desc_count(len, buf);
    assert(len > 0 ==> c >= 1) by (nonlinear_arith)
        requires
            len == buf * q + r,
            0 <= r < buf,
            c == q + (if r != 0 { 1int } else { 0int }),
            0 <= q,
    ;
    assert(len > 0 ==> (c - 1) * buf < len) by (nonlinear_arith)
        requires
            len == buf * q + r,
            0 <= r < buf,
            c == q + (if r != 0 { 1int } else { 0int }),
    ;
    assert(len <= c * buf) by (nonlinear_arith)
        requires
            len == buf * q + r,
            0 <= r < buf,
            c == q + (if r != 0 { 1int } else { 0int }),
    ;
}

/// The size of segment `i` when a frame of `len` bytes is split into buffers
/// of `buf` bytes.
pub open spec fn chunk_len(len: int, buf: int, i: int) -> int {
    if len - i * buf < buf {
        len - i * buf
    } else {
        buf
    }
}

/// TX descriptor `d` prepared for segment `i` of `c` segments of a frame
/// of `len` bytes, the control flags `flags` added to its status word.
pub open spec fn tx_prepared(d: TxDescriptor, len: int, buf: int, c: int, i: int, flags: u32) -> TxDescriptor {
    TxDescriptor {
        tdes0: tx_prepare_flags(i == 0, i == c - 1) | flags,
        tdes1: (chunk_len(len, buf, i) as u32) & tdes1::BUFFER1_SIZE_MASK,
        ..d
    }
}

/// A buffer whose first `n` bytes are `data[off..off + n]` and whose other
/// bytes are those of `old`.
pub open spec fn filled(old: Seq<u8>, data: Seq<u8>, off: int, n: int) -> Seq<u8> {
    data.subrange(off, off + n) + old.subrange(n, old.len() as int)
}

/// TX descriptor `d` after segment `i` of `c` of a frame of `len` bytes has
/// been prepared with the control flags `flags` and handed to the DMA.
pub open spec fn tx_submitted(d: TxDescriptor, len: int, buf: int, c: int, i: int, flags: u32) -> TxDescriptor {
    TxDescriptor {
        tdes0: tx_prepared(d, len, buf, c, i, flags).tdes0 | tdes0::OWN,
        ..tx_prepared(d, len, buf, c, i, flags)
    }
}

/// Distinct offsets within the ring size give distinct positions.
pub proof fn lemma_ring_pos_injective(cur: int, j1: int, j2: int, n: int)
    requires
        0 <= j1 < n,
        0 <= j2 < n,
        j1 != j2,
    ensures
        ring_pos(cur, j1, n) != ring_pos(cur, j2, n),
{
    let a = cur + j1;
    let b = cur + j2;
    vstd::arithmetic::div_mod::lemma_fundamental_div_mod(a, n);
    vstd::arithmetic::div_mod::lemma_fundamental_div_mod(b, n);
    let qa = a / n;
    let qb = b / n;
    if a % n == b % n {
        assert(false) by (nonlinear_arith)
            requires
                a == n * qa + a % n,
                b == n * qb + b % n,
                a % n == b % n,
                0 <= j1 < n,
                0 <= j2 < n,
                j1 != j2,
                a == cur + j1,
                b == cur + j2,
        ;
    }
}

/// Stepping a ring position by one.
pub proof fn lemma_ring_step(cur: int, i: int, n: int)
    requires
        n > 0,
    ensures
        ((cur + i) % n + 1) % n == (cur + i + 1) % n,
        0 <= (cur + i) % n < n,
{
    vstd::arithmetic::div_mod::lemma_add_mod_noop_right(1, cur + i, n);
    vstd::arithmetic::div_mod::lemma_mod_bound(cur + i, n);
}

/// The position of offset 0 is the cursor.
pub proof fn lemma_ring_start(cur: int, n: int)
    requires
        0 <= cur < n,
    ensures
        ring_pos(cur, 0, n) == cur,
{
    vstd::arithmetic::div_mod::lemma_small_mod(cur as nat, n as nat);
}

/// What `tx_owned_stop` means: every offset from `off` up to the stop is
/// CPU-owned, and the stop is owned unless it is the ring size.
pub proof fn lemma_tx_owned_stop(s: Seq<TxDescriptor>, cur: int, off: int)
    requires
        0 <= off <= s.len(),
    ensures
        off <= tx_owned_stop(s, cur, off) <= s.len(),
        forall|j: int|
            off <= j < tx_owned_stop(s, cur, off) ==> !tx_owned(
                #[trigger] s[ring_pos(cur, j, s.len() as int)].tdes0,
            ),
        tx_owned_stop(s, cur, off) < s.len() ==> tx_owned(
            s[ring_pos(cur, tx_owned_stop(s, cur, off), s.len() as int)].tdes0,
        ),
    decreases s.len() - off,
{
    if off < s.len() && !tx_owned(s[ring_pos(cur, off, s.len() as int)].tdes0) {
        lemma_tx_owned_stop(s, cur, off + 1);
    }
}

/// `tx_owned_stop` from `off` is `stop` when every offset from `off` up to
/// `stop` is CPU-owned and `stop` is owned by the DMA.
pub proof fn lemma_tx_stop_at(s: Seq<TxDescriptor>, cur: int, off: int, stop: int)
    requires
        0 <= off <= stop < s.len(),
        forall|j: int| off <= j < stop ==> !tx_owned(#[trigger] s[ring_pos(cur, j, s.len() as int)].tdes0),
        tx_owned(s[ring_pos(cur, stop, s.len() as int)].tdes0),
    ensures
        tx_owned_stop(s, cur, off) == stop,
    decreases stop - off,
{
    if off < stop {
        lemma_tx_stop_at(s, cur, off + 1, stop);
    }
}

/// What `rx_stop` means: every offset from `off` up to the stop is CPU-owned
/// and not the end of a frame; the stop, unless it is the ring size, is
/// owned by the DMA or ends a frame.
pub proof fn lemma_rx_stop(s: Seq<RxDescriptor>, cur: int, off: int)
    requires
        0 <= off <= s.len(),
    ensures
        off <= rx_stop(s, cur, off) <= s.len(),
        forall|j: int|
            off <= j < rx_stop(s, cur, off) ==> !rx_owned(
                #[trigger] s[ring_pos(cur, j, s.len() as int)].rdes0,
            ) && !rx_last(s[ring_pos(cur, j, s.len() as int)].rdes0),
        rx_stop(s, cur, off) < s.len() ==> (rx_owned(
            s[ring_pos(cur, rx_stop(s, cur, off), s.len() as int)].rdes0,
        ) || rx_last(s[ring_pos(cur, rx_stop(s, cur, off), s.len() as int)].rdes0)),
    decreases s.len() - off,
{
    if off < s.len() && !rx_owned(s[ring_pos(cur, off, s.len() as int)].rdes0) && !rx_last(
        s[ring_pos(cur, off, s.len() as int)].rdes0,
    ) {
        lemma_rx_stop(s, cur, off + 1);
    }
}

/// The status word of a transmitted segment, prepared as first and/or last
/// of its frame with the control flags `f` and handed to the DMA: it is
/// owned by the DMA, the first segment starts a frame, the last one ends it
/// and asks for the TX-complete interrupt, and otherwise the start and end
/// bits are those of `f`.
proof fn lemma_segment_word(first: bool, last: bool, f: u32)
    by (bit_vector)
    ensures
        (tx_prepare_flags(first, last) | f | tdes0::OWN) & tdes0::OWN != 0,
        first ==> (tx_prepare_flags(first, last) | f | tdes0::OWN) & tdes0::FIRST_SEGMENT != 0,
        !first ==> (tx_prepare_flags(first, last) | f | tdes0::OWN) & tdes0::FIRST_SEGMENT == f
            & tdes0::FIRST_SEGMENT,
        last ==> (tx_prepare_flags(first, last) | f | tdes0::OWN) & tdes0::LAST_SEGMENT != 0,
        last ==> (tx_prepare_flags(first, last) | f | tdes0::OWN) & tdes0::INTERRUPT_ON_COMPLETE != 0,
        !last ==> (tx_prepare_flags(first, last) | f | tdes0::OWN) & tdes0::LAST_SEGMENT == f
            & tdes0::LAST_SEGMENT,
{
}

/// Adding bits to a word keeps the bits of `y` it already holds, and
/// adding `y` itself puts them there.
proof fn lemma_union_keeps(u: u32, x: u32, y: u32)
    by (bit_vector)
    ensures
        (u & y) == y ==> ((u | x) & y) == y,
        ((u | y) & y) == y,
{
}

/// Every error reported by a CPU-owned TX descriptor among the first `k`
/// is in the union of their error flags.
pub proof fn lemma_tx_error_union_has(s: Seq<TxDescriptor>, k: int, i: int)
    requires
        0 <= i < k <= s.len(),
        !tx_owned(s[i].tdes0),
        s[i].tdes0 & tdes0::ERR_SUMMARY != 0,
    ensures
        tx_error_union(s, k) & (s[i].tdes0 & tdes0::ALL_ERRORS) == s[i].tdes0 & tdes0::ALL_ERRORS,
    decreases k,
{
    let y = s[i].tdes0 & tdes0::ALL_ERRORS;
    let d = s[k - 1];
    if i == k - 1 {
        lemma_union_keeps(tx_error_union(s, k - 1), 0, y);
    } else {
        lemma_tx_error_union_has(s, k - 1, i);
        lemma_union_keeps(tx_error_union(s, k - 1), d.tdes0 & tdes0::ALL_ERRORS, y);
    }
}

/// With no TX descriptor owned by the DMA, all of them from offset `off` on
/// are available.
pub proof fn lemma_tx_none_owned(s: Seq<TxDescriptor>, cur: int, off: int)
    requires
        0 <= off <= s.len(),
        forall|i: int| 0 <= i < s.len() ==> !tx_owned(#[trigger] s[i].tdes0),
    ensures
        tx_owned_stop(s, cur, off) == s.len(),
    decreases s.len() - off,
{
    if off < s.len() {
        vstd::arithmetic::div_mod::lemma_mod_bound(cur + off, s.len() as int);
        lemma_tx_none_owned(s, cur, off + 1);
    }
}

/// `rx_owned_stop` lies between its starting offset and the ring size.
pub proof fn lemma_rx_owned_stop_bound(s: Seq<RxDescriptor>, cur: int, off: int)
    requires
        0 <= off <= s.len(),
    ensures
        off <= rx_owned_stop(s, cur, off) <= s.len(),
    decreases s.len() - off,
{
    if off < s.len() {
        lemma_rx_owned_stop_bound(s, cur, off + 1);
    }
}

/// With no RX descriptor ending a frame, none of the first `m` after the
/// cursor does.
pub proof fn lemma_rx_none_last(s: Seq<RxDescriptor>, cur: int, m: int)
    requires
        0 <= m <= s.len(),
        forall|i: int| 0 <= i < s.len() ==> !rx_last(#[trigger] s[i].rdes0),
    ensures
        rx_last_count(s, cur, m) == 0,
    decreases m,
{
    if m > 0 {
        vstd::arithmetic::div_mod::lemma_mod_bound(cur + m - 1, s.len() as int);
        lemma_rx_none_last(s, cur, m - 1);
    }
}

/// A copy of the buffer `old` whose first `n` bytes are
/// `data[off..off + n]`.
fn fill_chunk<const BUF_SIZE: usize>(old: &[u8; BUF_SIZE], data: &[u8], off: usize, n: usize) -> (v: [u8; BUF_SIZE])
    requires
        n <= BUF_SIZE,
        off + n <= data@.len(),
    ensures
        v@ == filled(old@, data@, off as int, n as int),
{
    let dlen = data.len();
    let mut v: [u8; BUF_SIZE] = *old;
    let mut j: usize = 0;
    while j < n
        invariant
            dlen == data@.len(),
            j <= n,
            n <= BUF_SIZE,
            off + n <= data@.len(),
            v@.len() == BUF_SIZE,
            v@ == data@.subrange(off as int, off + j) + old@.subrange(j as int, BUF_SIZE as int),
        decreases n - j,
    {
        v[j] = data[off + j];
        j = j + 1;
        assert(v@ =~= data@.subrange(off as int, off + j) + old@.subrange(j as int, BUF_SIZE as int));
    }
    v
}

impl<const RX_BUFS: usize, const TX_BUFS: usize, const BUF_SIZE: usize> DmaEngine<
    RX_BUFS,
    TX_BUFS,
    BUF_SIZE,
> {
    /// The ring sizes and buffer size admit a working engine.
    pub open spec fn valid_dims() -> bool {
        &&& RX_BUFS > 0
        &&& TX_BUFS > 0
        &&& BUF_SIZE > 0
        &&& RX_BUFS * BUF_SIZE <= usize::MAX
        &&& TX_BUFS * BUF_SIZE <= usize::MAX
        &&& RX_BUFS + RX_BUFS <= usize::MAX
        &&& TX_BUFS + TX_BUFS <= usize::MAX
    }

    /// Well-formed engine.
    pub closed spec fn wf(&self) -> bool {
        &&& Self::valid_dims()
        &&& self.rx_ring.wf()
        &&& self.tx_ring.wf()
        &&& self.rx_buffers@.len() == RX_BUFS
        &&& self.tx_buffers@.len() == TX_BUFS
        &&& forall|i: int| 0 <= i < RX_BUFS ==> #[trigger] self.rx_buffers@[i]@.len() == BUF_SIZE
        &&& forall|i: int| 0 <= i < TX_BUFS ==> #[trigger] self.tx_buffers@[i]@.len() == BUF_SIZE
    }

    /// The RX descriptors, by ring index.
    pub closed spec fn rx_descs(&self) -> Seq<RxDescriptor> {
        self.rx_ring.descriptors@
    }

    /// The TX descriptors, by ring index.
    pub closed spec fn tx_descs(&self) -> Seq<TxDescriptor> {
        self.tx_ring.descriptors@
    }

    /// The RX cursor.
    pub closed spec fn rx_cur(&self) -> int {
        self.rx_ring.current as int
    }

    /// The TX cursor.
    pub closed spec fn tx_cur(&self) -> int {
        self.tx_ring.current as int
    }

    /// The contents of RX buffer `i`.
    pub closed spec fn rx_buf(&self, i: int) -> Seq<u8> {
        self.rx_buffers@[i]@
    }

    /// The contents of TX buffer `i`.
    pub closed spec fn tx_buf(&self, i: int) -> Seq<u8> {
        self.tx_buffers@[i]@
    }

    /// The TX control flags.
    pub closed spec fn ctrl_flags(&self) -> u32 {
        self.tx_ctrl_flags
    }

    /// Whether `init` has run.
    pub closed spec fn is_init(&self) -> bool {
        self.initialized
    }

    /// What a well-formed engine guarantees: the dimensions are valid, each
    /// ring has one descriptor per buffer, both cursors are ring indices and
    /// every buffer holds `BUF_SIZE` bytes.
    pub proof fn lemma_wf(&self)
        requires
            self.wf(),
        ensures
            Self::valid_dims(),
            self.rx_descs().len() == RX_BUFS,
            self.tx_descs().len() == TX_BUFS,
            0 <= self.rx_cur() < RX_BUFS,
            0 <= self.tx_cur() < TX_BUFS,
            forall|i: int| 0 <= i < RX_BUFS ==> #[trigger] self.rx_buf(i).len() == BUF_SIZE,
            forall|i: int| 0 <= i < TX_BUFS ==> #[trigger] self.tx_buf(i).len() == BUF_SIZE,
    {
    }

    /// Create a new DMA engine with zeroed descriptors and buffers.
    pub fn new() -> (e: Self)
        ensures
            Self::valid_dims() ==> e.wf(),
            !e.is_init(),
            e.ctrl_flags() == 0,
            e.rx_cur() == 0,
            e.tx_cur() == 0,
            forall|i: int| 0 <= i < RX_BUFS ==> #[trigger] e.rx_buf(i) == Seq::new(BUF_SIZE as nat, |k: int| 0u8),
            forall|i: int| 0 <= i < TX_BUFS ==> #[trigger] e.tx_buf(i) == Seq::new(BUF_SIZE as nat, |k: int| 0u8),
            e.rx_descs().len() == RX_BUFS,
            e.tx_descs().len() == TX_BUFS,
            forall|i: int| 0 <= i < RX_BUFS ==> #[trigger] e.rx_descs()[i] == rx_zeroed(),
            forall|i: int| 0 <= i < TX_BUFS ==> #[trigger] e.tx_descs()[i] == tx_zeroed(),
            tx_owned_stop(e.tx_descs(), e.tx_cur(), 0) == TX_BUFS,
            rx_last_count(e.rx_descs(), e.rx_cur(), rx_owned_stop(e.rx_descs(), e.rx_cur(), 0)) == 0,
    {
        let rx_ring = DescriptorRing::from_array([RxDescriptor::new(); RX_BUFS]);
        let tx_ring = DescriptorRing::from_array([TxDescriptor::new(); TX_BUFS]);
        let e = DmaEngine {
            rx_ring,
            tx_ring,
            rx_buffers: [[0u8; BUF_SIZE]; RX_BUFS],
            tx_buffers: [[0u8; BUF_SIZE]; TX_BUFS],
            tx_ctrl_flags: 0,
            initialized: false,
        };
        proof {
            crate::regs::lemma_word_bits();
            lemma_tx_none_owned(e.tx_descs(), 0, 0);
            lemma_rx_owned_stop_bound(e.rx_descs(), 0, 0);
            lemma_rx_none_last(e.rx_descs(), 0, rx_owned_stop(e.rx_descs(), 0, 0));
        }
        e
    }

    /// Total memory taken by the descriptors and buffers, in bytes.
    pub fn memory_usage() -> (r: usize)
        requires
            RX_BUFS * 32 + TX_BUFS * 32 + RX_BUFS * BUF_SIZE + TX_BUFS * BUF_SIZE <= usize::MAX,
        ensures
            r == RX_BUFS * 32 + TX_BUFS * 32 + RX_BUFS * BUF_SIZE + TX_BUFS * BUF_SIZE,
    {
        proof {
            assert(RX_BUFS * 32 <= RX_BUFS * 32 + TX_BUFS * 32 + RX_BUFS * BUF_SIZE + TX_BUFS * BUF_SIZE)
                by (nonlinear_arith);
            assert(TX_BUFS * 32 <= RX_BUFS * 32 + TX_BUFS * 32 + RX_BUFS * BUF_SIZE + TX_BUFS * BUF_SIZE)
                by (nonlinear_arith);
            assert(RX_BUFS * BUF_SIZE <= RX_BUFS * 32 + TX_BUFS * 32 + RX_BUFS * BUF_SIZE + TX_BUFS
                * BUF_SIZE) by (nonlinear_arith);
            assert(TX_BUFS * BUF_SIZE <= RX_BUFS * 32 + TX_BUFS * 32 + RX_BUFS * BUF_SIZE + TX_BUFS
                * BUF_SIZE) by (nonlinear_arith);
        }
        let rx_desc_size = RX_BUFS * RxDescriptor::SIZE;
        let tx_desc_size = TX_BUFS * TxDescriptor::SIZE;
        let rx_buf_size = RX_BUFS * BUF_SIZE;
        let tx_buf_size = TX_BUFS * BUF_SIZE;
        rx_desc_size + tx_desc_size + rx_buf_size + tx_buf_size
    }

    /// Whether enough descriptors are free, from the TX cursor on, for a
    /// frame of `len` bytes.
    pub fn can_transmit(&self, len: usize) -> (r: bool)
        requires
            self.wf(),
        ensures
            r == (len != 0 && len <= TX_BUFS * BUF_SIZE && tx_owned_stop(
                self.tx_descs(),
                self.tx_cur(),
                0,
            ) >= desc_count(len as int, BUF_SIZE as int)),
    {
        if len == 0 || len > TX_BUFS * BUF_SIZE {
            return false;
        }
        proof {
            lemma_desc_count(len as int, BUF_SIZE as int, TX_BUFS as int);
        }
        let needed = len / BUF_SIZE + if len % BUF_SIZE != 0 { 1 } else { 0 };
        self.tx_available() >= needed
    }

    /// Whether the descriptor before the TX cursor is back with the CPU.
    pub fn tx_complete(&self) -> (r: bool)
        requires
            self.wf(),
        ensures
            r == !tx_owned(
                self.tx_descs()[if self.tx_cur() == 0 {
                    TX_BUFS - 1
                } else {
                    self.tx_cur() - 1
                }].tdes0,
            ),
    {
        let prev_idx = if self.tx_ring.current == 0 {
            TX_BUFS - 1
        } else {
            self.tx_ring.current - 1
        };
        !self.tx_ring.descriptors[prev_idx].is_owned()
    }

    /// Count the CPU-owned TX descriptors and collect the error flags of
    /// those that report an error. Returns `(count, error_flags)`.
    pub fn tx_reclaim(&mut self) -> (r: (usize, u32))
        requires
            old(self).wf(),
        ensures
            *final(self) == *old(self),
            r.0 == tx_free_count(old(self).tx_descs(), TX_BUFS as int),
            r.1 == tx_error_union(old(self).tx_descs(), TX_BUFS as int),
            forall|i: int|
                0 <= i < TX_BUFS && !tx_owned(#[trigger] old(self).tx_descs()[i].tdes0)
                    && old(self).tx_descs()[i].tdes0 & tdes0::ERR_SUMMARY != 0 ==> r.1 & (old(
                    self,
                ).tx_descs()[i].tdes0 & tdes0::ALL_ERRORS) == old(self).tx_descs()[i].tdes0
                    & tdes0::ALL_ERRORS,
    {
        let mut reclaimed: usize = 0;
        let mut errors: u32 = 0;
        let mut i: usize = 0;
        while i < TX_BUFS
            invariant
                self.wf(),
                i <= TX_BUFS,
                reclaimed == tx_free_count(self.tx_descs(), i as int),
                reclaimed <= i,
                errors == tx_error_union(self.tx_descs(), i as int),
            decreases TX_BUFS - i,
        {
            let desc = &self.tx_ring.descriptors[i];
            if !desc.is_owned() {
                if desc.has_error() {
                    errors = errors | desc.error_flags();
                }
                reclaimed = reclaimed + 1;
            }
            i = i + 1;
        }
        proof {
            assert forall|j: int|
                0 <= j < TX_BUFS && !tx_owned(#[trigger] self.tx_descs()[j].tdes0)
                    && self.tx_descs()[j].tdes0 & tdes0::ERR_SUMMARY != 0 implies errors & (
                self.tx_descs()[j].tdes0 & tdes0::ALL_ERRORS) == self.tx_descs()[j].tdes0
                & tdes0::ALL_ERRORS by {
                lemma_tx_error_union_has(self.tx_descs(), TX_BUFS as int, j);
            }
        }
        (reclaimed, errors)
    }

    /// Length of the next frame (CRC excluded) without consuming it.
    pub fn peek_frame_length(&self) -> (r: Option<usize>)
        requires
            self.wf(),
        ensures
            r matches Some(l) ==> rx_peek(self.rx_descs(), self.rx_cur()) == Some(l as nat),
            r is None ==> rx_peek(self.rx_descs(), self.rx_cur()) is None,
    {
        let desc = self.rx_ring.current();
        if desc.is_owned() {
            return None;
        }
        if desc.has_error() {
            return None;
        }
        if desc.is_first() && desc.is_last() {
            return Some(desc.payload_length());
        }
        if desc.is_first() {
            let mut i: usize = 1;
            while i < RX_BUFS
                invariant
                    self.wf(),
                    1 <= i <= RX_BUFS,
                    !rx_owned(self.rx_descs()[self.rx_cur()].rdes0),
                    !rx_error(self.rx_descs()[self.rx_cur()].rdes0),
                    rx_first(self.rx_descs()[self.rx_cur()].rdes0),
                    !rx_last(self.rx_descs()[self.rx_cur()].rdes0),
                    rx_stop(self.rx_descs(), self.rx_cur(), 1) == rx_stop(
                        self.rx_descs(),
                        self.rx_cur(),
                        i as int,
                    ),
                decreases RX_BUFS - i,
            {
                let idx = (self.rx_ring.current + i) % RX_BUFS;
                let d = &self.rx_ring.descriptors[idx];
                if d.is_owned() {
                    assert(rx_stop(self.rx_descs(), self.rx_cur(), i as int) == i as int);
                    return None;
                }
                if d.is_last() {
                    assert(rx_stop(self.rx_descs(), self.rx_cur(), i as int) == i as int);
                    return Some(d.payload_length());
                }
                i = i + 1;
            }
        }
        None
    }

    /// The RX side, the control flags and the initialization flag of `self`
    /// are those of `prev`.
    pub closed spec fn same_rx_side(&self, prev: &Self) -> bool {
        &&& self.rx_ring == prev.rx_ring
        &&& self.rx_buffers@ == prev.rx_buffers@
        &&& self.tx_ctrl_flags == prev.tx_ctrl_flags
        &&& self.initialized == prev.initialized
    }

    /// What `same_rx_side` keeps: the RX descriptors, cursor and buffers, the
    /// control flags and the initialization flag.
    pub proof fn lemma_same_rx_side(&self, prev: &Self)
        requires
            self.same_rx_side(prev),
        ensures
            self.rx_descs() == prev.rx_descs(),
            self.rx_cur() == prev.rx_cur(),
            forall|i: int| #[trigger] self.rx_buf(i) == prev.rx_buf(i),
            self.ctrl_flags() == prev.ctrl_flags(),
            self.is_init() == prev.is_init(),
    {
    }

    /// TX slot `j` places after the cursor of `prev`, while `data` is being
    /// handed to the DMA: the first `prepared` slots hold their segment and
    /// are prepared for it, those from `owned_from` on among them also belong
    /// to the DMA, and the other slots are as in `prev`.
    pub open spec fn tx_slot(
        &self,
        prev: &Self,
        data: Seq<u8>,
        j: int,
        prepared: int,
        owned_from: int,
    ) -> bool {
        let p = ring_pos(prev.tx_cur(), j, TX_BUFS as int);
        let len = data.len() as int;
        let c = desc_count(len, BUF_SIZE as int);
        if j < prepared {
            &&& self.tx_descs()[p] == (if j >= owned_from {
                tx_submitted(prev.tx_descs()[p], len, BUF_SIZE as int, c, j, prev.ctrl_flags())
            } else {
                tx_prepared(prev.tx_descs()[p], len, BUF_SIZE as int, c, j, prev.ctrl_flags())
            })
            &&& self.tx_buf(p) == filled(
                prev.tx_buf(p),
                data,
                j * BUF_SIZE,
                chunk_len(len, BUF_SIZE as int, j),
            )
        } else {
            &&& self.tx_descs()[p] == prev.tx_descs()[p]
            &&& self.tx_buf(p) == prev.tx_buf(p)
        }
    }

    /// The TX side, the RX buffers, the control flags and the initialization
    /// flag of `self` are those of `prev`.
    pub closed spec fn same_tx_side(&self, prev: &Self) -> bool {
        &&& self.tx_ring == prev.tx_ring
        &&& self.tx_buffers@ == prev.tx_buffers@
        &&& self.rx_buffers@ == prev.rx_buffers@
        &&& self.tx_ctrl_flags == prev.tx_ctrl_flags
        &&& self.initialized == prev.initialized
    }

    /// What `same_tx_side` keeps: the TX descriptors, cursor and buffers, the
    /// RX buffers, the control flags and the initialization flag.
    pub proof fn lemma_same_tx_side(&self, prev: &Self)
        requires
            self.same_tx_side(prev),
        ensures
            self.tx_descs() == prev.tx_descs(),
            self.tx_cur() == prev.tx_cur(),
            forall|i: int| #[trigger] self.tx_buf(i) == prev.tx_buf(i),
            forall|i: int| #[trigger] self.rx_buf(i) == prev.rx_buf(i),
            self.ctrl_flags() == prev.ctrl_flags(),
            self.is_init() == prev.is_init(),
    {
    }

    /// RX slot `j` places after the cursor of `prev` has been handed back to
    /// the DMA if `j < m`, and is as in `prev` otherwise.
    pub open spec fn rx_slot(&self, prev: &Self, j: int, m: int) -> bool {
        let p = ring_pos(prev.rx_cur(), j, RX_BUFS as int);
        self.rx_descs()[p] == (if j < m {
            rx_recycled(prev.rx_descs()[p])
        } else {
            prev.rx_descs()[p]
        })
    }

    /// `self` is `prev` after the `m` RX descriptors from the cursor on have
    /// been handed back to the DMA and the cursor moved past them.
    pub open spec fn rx_consumed(&self, prev: &Self, m: int) -> bool {
        &&& self.same_tx_side(prev)
        &&& self.rx_cur() == ring_pos(prev.rx_cur(), m, RX_BUFS as int)
        &&& forall|j: int| 0 <= j < RX_BUFS ==> #[trigger] self.rx_slot(prev, j, m)
    }

    /// Byte `p` of the frame at the RX cursor, read across the buffers from
    /// the cursor on.
    pub open spec fn rx_frame_byte(&self, p: int) -> u8 {
        self.rx_buf(ring_pos(self.rx_cur(), p / (BUF_SIZE as int), RX_BUFS as int))[p % (
        BUF_SIZE as int)]
    }

    /// The first `len` bytes of the frame at the RX cursor.
    pub open spec fn rx_frame_data(&self, len: int) -> Seq<u8> {
        Seq::new(len as nat, |p: int| self.rx_frame_byte(p))
    }

    /// `self` is `prev` after `data` was handed to the DMA: its segments fill
    /// the buffers from the TX cursor on, each descriptor is prepared with its
    /// segment length and the TX control flags and owned by the DMA, and the
    /// cursor moved past them.
    pub open spec fn tx_after(&self, prev: &Self, data: Seq<u8>) -> bool {
        let c = desc_count(data.len() as int, BUF_SIZE as int);
        &&& self.same_rx_side(prev)
        &&& self.tx_cur() == (prev.tx_cur() + c) % (TX_BUFS as int)
        &&& forall|j: int| 0 <= j < TX_BUFS ==> #[trigger] self.tx_slot(prev, data, j, c, 0)
    }

    /// What `transmit` of `data` on `prev` gives: `self` and the result `r`.
    ///
    /// An empty frame, a frame larger than all TX buffers together, and a
    /// frame needing more descriptors than are free from the cursor on are
    /// refused, changing nothing; any other frame is handed to the DMA.
    pub open spec fn transmit_result(&self, prev: &Self, data: Seq<u8>, r: Result<usize>) -> bool {
        let len = data.len();
        let free = tx_owned_stop(prev.tx_descs(), prev.tx_cur(), 0);
        let need = desc_count(len as int, BUF_SIZE as int);
        &&& self.wf()
        &&& len == 0 ==> r == Err::<usize, Error>(Error::Dma(DmaError::InvalidLength)) && *self
            == *prev
        &&& len > TX_BUFS * BUF_SIZE ==> r == Err::<usize, Error>(
            Error::Dma(DmaError::FrameTooLarge),
        ) && *self == *prev
        &&& 0 < len <= TX_BUFS * BUF_SIZE && free < need ==> r == Err::<usize, Error>(
            Error::Dma(DmaError::NoDescriptorsAvailable),
        ) && *self == *prev
        &&& 0 < len <= TX_BUFS * BUF_SIZE && free >= need ==> r == Ok::<usize, Error>(
            len as usize,
        ) && self.tx_after(prev, data)
    }

    /// A frame accepted by `transmit` can be read back from the TX buffers:
    /// byte `p` sits in the buffer `p / BUF_SIZE` places after the old TX
    /// cursor, at offset `p % BUF_SIZE`, and that buffer's descriptor is owned
    /// by the DMA.
    pub proof fn lemma_transmit_read_back(&self, prev: &Self, data: Seq<u8>, r: Result<usize>, p: int)
        requires
            prev.wf(),
            self.transmit_result(prev, data, r),
            r is Ok,
            0 <= p < data.len(),
        ensures
            ({
                let pos = ring_pos(prev.tx_cur(), p / (BUF_SIZE as int), TX_BUFS as int);
                &&& self.tx_buf(pos)[p % (BUF_SIZE as int)] == data[p]
                &&& tx_owned(self.tx_descs()[pos].tdes0)
            }),
    {
        let b = BUF_SIZE as int;
        let len = data.len() as int;
        let c = desc_count(len, b);
        let j = p / b;
        let k = p % b;
        lemma_desc_count(len, b, TX_BUFS as int);
        vstd::arithmetic::div_mod::lemma_fundamental_div_mod(p, b);
        vstd::arithmetic::div_mod::lemma_mod_bound(p, b);
        assert(0 <= j) by (nonlinear_arith)
            requires
                p == b * j + k,
                0 <= k < b,
                0 <= p,
        ;
        assert(j < c) by (nonlinear_arith)
            requires
                p == b * j + k,
                0 <= k,
                p < len,
                len <= c * b,
                b > 0,
        ;
        assert(j * b + k == p) by (nonlinear_arith)
            requires
                p == b * j + k,
        ;
        assert(self.tx_slot(prev, data, j, c, 0));
        let pos = ring_pos(prev.tx_cur(), j, TX_BUFS as int);
        vstd::arithmetic::div_mod::lemma_mod_bound(prev.tx_cur() + j, TX_BUFS as int);
        let n = chunk_len(len, b, j);
        assert(k < n);
        assert(j * b + n <= len);
        assert(prev.tx_buf(pos).len() == b);
        assert(tx_submitted(prev.tx_descs()[pos], len, b, c, j, prev.ctrl_flags()).tdes0 & tdes0::OWN != 0) by {
            let w = tx_prepared(prev.tx_descs()[pos], len, b, c, j, prev.ctrl_flags()).tdes0;
            crate::regs::lemma_word_bits();
        }
    }

    /// A frame accepted by `transmit` is marked for the MAC: the descriptor
    /// at the old TX cursor starts it, the one `c - 1` places on (`c` the
    /// number of descriptors the frame needs) ends it and asks for the
    /// TX-complete interrupt, every one of them belongs to the DMA, and no
    /// other one starts or ends a frame unless the TX control flags say so.
    pub proof fn lemma_transmit_marks_frame(&self, prev: &Self, data: Seq<u8>, r: Result<usize>)
        requires
            prev.wf(),
            self.transmit_result(prev, data, r),
            r is Ok,
        ensures
            ({
                let n = TX_BUFS as int;
                let c = desc_count(data.len() as int, BUF_SIZE as int);
                let cur = prev.tx_cur();
                let f = prev.ctrl_flags();
                &&& 1 <= c <= n
                &&& self.tx_descs()[cur].tdes0 & tdes0::FIRST_SEGMENT != 0
                &&& self.tx_descs()[ring_pos(cur, c - 1, n)].tdes0 & tdes0::LAST_SEGMENT != 0
                &&& self.tx_descs()[ring_pos(cur, c - 1, n)].tdes0 & tdes0::INTERRUPT_ON_COMPLETE != 0
                &&& forall|j: int|
                    0 <= j < c ==> #[trigger] self.tx_descs()[ring_pos(cur, j, n)].tdes0 & tdes0::OWN != 0
                &&& forall|j: int|
                    0 <= j < c - 1 ==> #[trigger] self.tx_descs()[ring_pos(cur, j, n)].tdes0
                        & tdes0::LAST_SEGMENT == f & tdes0::LAST_SEGMENT
                &&& forall|j: int|
                    0 < j < c ==> #[trigger] self.tx_descs()[ring_pos(cur, j, n)].tdes0
                        & tdes0::FIRST_SEGMENT == f & tdes0::FIRST_SEGMENT
            }),
    {
        let n = TX_BUFS as int;
        let b = BUF_SIZE as int;
        let len = data.len() as int;
        let c = desc_count(len, b);
        let cur = prev.tx_cur();
        let f = prev.ctrl_flags();
        lemma_desc_count(len, b, n);
        lemma_ring_start(cur, n);
        assert forall|j: int| 0 <= j < c implies {
            let w = #[trigger] self.tx_descs()[ring_pos(cur, j, n)].tdes0;
            &&& w == tx_prepare_flags(j == 0, j == c - 1) | f | tdes0::OWN
        } by {
            assert(self.tx_slot(prev, data, j, c, 0));
        }
        assert(self.tx_slot(prev, data, 0, c, 0));
        assert(self.tx_slot(prev, data, c - 1, c, 0));
        lemma_segment_word(true, c - 1 == 0, f);
        lemma_segment_word(c - 1 == 0, true, f);
        assert forall|j: int| 0 <= j < c implies #[trigger] self.tx_descs()[ring_pos(cur, j, n)].tdes0
            & tdes0::OWN != 0 && (j < c - 1 ==> self.tx_descs()[ring_pos(cur, j, n)].tdes0
            & tdes0::LAST_SEGMENT == f & tdes0::LAST_SEGMENT) && (0 < j ==> self.tx_descs()[ring_pos(
            cur,
            j,
            n,
        )].tdes0 & tdes0::FIRST_SEGMENT == f & tdes0::FIRST_SEGMENT) by {
            assert(self.tx_slot(prev, data, j, c, 0));
            lemma_segment_word(j == 0, j == c - 1, f);
        }
    }

    /// A frame accepted by `transmit` uses as many descriptors as it needs:
    /// afterwards the TX descriptors available to the CPU from the new
    /// cursor on are those that were available before, less that number.
    pub proof fn lemma_transmit_uses_descriptors(&self, prev: &Self, data: Seq<u8>, r: Result<usize>)
        requires
            prev.wf(),
            self.transmit_result(prev, data, r),
            r is Ok,
        ensures
            tx_owned_stop(self.tx_descs(), self.tx_cur(), 0) == tx_owned_stop(
                prev.tx_descs(),
                prev.tx_cur(),
                0,
            ) - desc_count(data.len() as int, BUF_SIZE as int),
    {
        let b = BUF_SIZE as int;
        let n = TX_BUFS as int;
        let len = data.len() as int;
        let c = desc_count(len, b);
        let s1 = prev.tx_descs();
        let s2 = self.tx_descs();
        let cur1 = prev.tx_cur();
        let cur2 = self.tx_cur();
        let free = tx_owned_stop(s1, cur1, 0);
        lemma_desc_count(len, b, n);
        lemma_tx_owned_stop(s1, cur1, 0);
        assert forall|i: int| 0 <= i <= free - c && c + i < n implies s2[ring_pos(cur2, i, n)]
            == s1[ring_pos(cur1, c + i, n)] by {
            crate::ring::lemma_advance_compose(cur1, c, i, n);
            assert(self.tx_slot(prev, data, c + i, c, 0));
        }
        assert forall|i: int| 0 <= i < free - c implies !tx_owned(
            #[trigger] s2[ring_pos(cur2, i, n)].tdes0,
        ) by {
            assert(!tx_owned(s1[ring_pos(cur1, c + i, n)].tdes0));
        }
        if free < n {
            assert(tx_owned(s2[ring_pos(cur2, free - c, n)].tdes0));
        } else {
            crate::ring::lemma_advance_compose(cur1, c, n - c, n);
            crate::ring::lemma_advance_full_turn(cur1, n);
            vstd::arithmetic::div_mod::lemma_small_mod(cur1 as nat, n as nat);
            assert(ring_pos(cur2, n - c, n) == ring_pos(cur1, 0, n));
            assert(self.tx_slot(prev, data, 0, c, 0));
            let w = tx_prepared(s1[ring_pos(cur1, 0, n)], len, b, c, 0, prev.ctrl_flags()).tdes0;
            crate::regs::lemma_word_bits();
        }
        lemma_tx_stop_at(s2, cur2, 0, free - c);
    }

    /// Transmit a frame, split over as many buffers as it needs.
    ///
    /// Fails, changing nothing, on an empty frame, on a frame larger than
    /// all TX buffers together, and when fewer descriptors are free from the
    /// cursor on than the frame needs. On success the DMA owns the frame's
    /// descriptors, each with the TX control flags added to its status word;
    /// the caller then issues a TX poll demand.
    pub fn transmit(&mut self, data: &[u8]) -> (r: Result<usize>)
        requires
            old(self).wf(),
        ensures
            final(self).transmit_result(old(self), data@, r),
    {
        let len = data.len();
        if len == 0 {
            return Err(Error::Dma(DmaError::InvalidLength));
        }
        let total_capacity = TX_BUFS * BUF_SIZE;
        if len > total_capacity {
            return Err(Error::Dma(DmaError::FrameTooLarge));
        }
        proof {
            lemma_desc_count(len as int, BUF_SIZE as int, TX_BUFS as int);
        }
        let seg_count = len / BUF_SIZE + if len % BUF_SIZE != 0 { 1 } else { 0 };
        if self.tx_available() < seg_count {
            return Err(Error::Dma(DmaError::NoDescriptorsAvailable));
        }
        let ghost prev = *self;
        let ghost cur = self.tx_cur();
        let ghost c = seg_count as int;
        proof {
            lemma_tx_owned_stop(prev.tx_descs(), cur, 0);
            assert forall|j: int| 0 <= j < TX_BUFS implies #[trigger] self.tx_slot(
                &prev,
                data@,
                j,
                0,
                c,
            ) by {}
        }
        let mut remaining: usize = len;
        let mut offset: usize = 0;
        let mut i: usize = 0;
        while i < seg_count
            invariant
                self.wf(),
                prev.wf(),
                self.same_rx_side(&prev),
                self.tx_cur() == cur,
                cur == prev.tx_cur(),
                len == data@.len(),
                0 < len <= TX_BUFS * BUF_SIZE,
                c == seg_count,
                c == desc_count(len as int, BUF_SIZE as int),
                1 <= c <= TX_BUFS,
                (c - 1) * BUF_SIZE < len <= c * BUF_SIZE,
                c <= tx_owned_stop(prev.tx_descs(), cur, 0),
                forall|j: int|
                    0 <= j < tx_owned_stop(prev.tx_descs(), cur, 0) ==> !tx_owned(
                        #[trigger] prev.tx_descs()[ring_pos(cur, j, TX_BUFS as int)].tdes0,
                    ),
                i <= c,
                i < c ==> offset == i * BUF_SIZE && remaining == len - offset,
                forall|j: int| 0 <= j < TX_BUFS ==> #[trigger] self.tx_slot(&prev, data@, j, i as int, c),
            decreases seg_count - i,
        {
            let idx = (self.tx_ring.current + i) % TX_BUFS;
            let ghost before = *self;
            proof {
                lemma_ring_step(cur, i as int, TX_BUFS as int);
                assert(idx as int == ring_pos(cur, i as int, TX_BUFS as int));
                assert(before.tx_slot(&prev, data@, i as int, i as int, c));
                assert(!tx_owned(prev.tx_descs()[ring_pos(cur, i as int, TX_BUFS as int)].tdes0));
                assert(i * BUF_SIZE <= (c - 1) * BUF_SIZE) by (nonlinear_arith)
                    requires
                        i <= c - 1,
                        0 < BUF_SIZE,
                ;
            }
            if self.tx_ring.descriptors[idx].is_owned() {
                return Err(Error::Dma(DmaError::DescriptorBusy));
            }
            let chunk_size = if remaining < BUF_SIZE {
                remaining
            } else {
                BUF_SIZE
            };
            let buf = fill_chunk(&self.tx_buffers[idx], data, offset, chunk_size);
            self.tx_buffers[idx] = buf;
            self.tx_ring.descriptors[idx].prepare(chunk_size, i == 0, i == seg_count - 1);
            let prepared = self.tx_ring.descriptors[idx].tdes0;
            self.tx_ring.descriptors[idx].tdes0 = prepared | self.tx_ctrl_flags;
            proof {
                assert(chunk_size == chunk_len(len as int, BUF_SIZE as int, i as int));
                if i + 1 < c {
                    assert((i + 1) * BUF_SIZE <= (c - 1) * BUF_SIZE) by (nonlinear_arith)
                        requires
                            i + 1 <= c - 1,
                            0 < BUF_SIZE,
                    ;
                    assert((i + 1) * BUF_SIZE == i * BUF_SIZE + BUF_SIZE) by (nonlinear_arith);
                }
                assert forall|j: int| 0 <= j < TX_BUFS implies #[trigger] self.tx_slot(
                    &prev,
                    data@,
                    j,
                    i + 1,
                    c,
                ) by {
                    assert(before.tx_slot(&prev, data@, j, i as int, c));
                    lemma_ring_step(cur, j, TX_BUFS as int);
                    if j != i {
                        lemma_ring_pos_injective(cur, j, i as int, TX_BUFS as int);
                    }
                }
            }
            remaining = remaining - chunk_size;
            offset = offset + chunk_size;
            i = i + 1;
        }
        let mut k: usize = seg_count;
        while k > 0
            invariant
                self.wf(),
                prev.wf(),
                self.same_rx_side(&prev),
                self.tx_cur() == cur,
                cur == prev.tx_cur(),
                len == data@.len(),
                c == seg_count,
                c == desc_count(len as int, BUF_SIZE as int),
                1 <= c <= TX_BUFS,
                k <= c,
                forall|j: int| 0 <= j < TX_BUFS ==> #[trigger] self.tx_slot(&prev, data@, j, c, k as int),
            decreases k,
        {
            k = k - 1;
            let idx = (self.tx_ring.current + k) % TX_BUFS;
            let ghost before = *self;
            proof {
                lemma_ring_step(cur, k as int, TX_BUFS as int);
                assert(idx as int == ring_pos(cur, k as int, TX_BUFS as int));
            }
            self.tx_ring.descriptors[idx].set_owned();
            proof {
                assert forall|j: int| 0 <= j < TX_BUFS implies #[trigger] self.tx_slot(
                    &prev,
                    data@,
                    j,
                    c,
                    k as int,
                ) by {
                    assert(before.tx_slot(&prev, data@, j, c, k + 1));
                    lemma_ring_step(cur, j, TX_BUFS as int);
                    if j != k {
                        lemma_ring_pos_injective(cur, j, k as int, TX_BUFS as int);
                    }
                }
            }
        }
        let ghost before = *self;
        self.tx_ring.advance_by(seg_count);
        proof {
            assert(self.tx_descs() == before.tx_descs());
            assert forall|j: int| 0 <= j < TX_BUFS implies #[trigger] self.tx_slot(
                &prev,
                data@,
                j,
                c,
                0,
            ) by {
                assert(before.tx_slot(&prev, data@, j, c, 0));
            }
        }
        Ok(len)
    }

    /// Discard the frame at the RX cursor: hand its descriptors back to the
    /// DMA, up to and including the one that ends it, stopping early at a
    /// descriptor the DMA owns. The caller then issues an RX poll demand.
    pub fn flush_rx_frame(&mut self)
        requires
            old(self).wf(),
        ensures
            final(self).wf(),
            final(self).rx_consumed(old(self), rx_flush_count(old(self).rx_descs(), old(self).rx_cur())),
    {
        let ghost prev = *self;
        let ghost cur = self.rx_cur();
        let ghost n = RX_BUFS as int;
        proof {
            lemma_ring_start(cur, n);
            lemma_rx_stop(prev.rx_descs(), cur, 0);
        }
        let mut i: usize = 0;
        loop
            invariant_except_break
                i <= rx_stop(prev.rx_descs(), cur, 0),
            invariant
                self.wf(),
                prev.wf(),
                cur == prev.rx_cur(),
                n == RX_BUFS,
                0 <= cur < n,
                i <= RX_BUFS,
                self.same_tx_side(&prev),
                self.rx_cur() == ring_pos(cur, i as int, n),
                forall|j: int| 0 <= j < RX_BUFS ==> #[trigger] self.rx_slot(&prev, j, i as int),
            ensures
                self.wf(),
                self.rx_consumed(&prev, rx_flush_count(prev.rx_descs(), cur)),
            decreases RX_BUFS - i,
        {
            let ghost before = *self;
            proof {
                lemma_rx_stop_from(prev.rx_descs(), cur, i as int);
                lemma_ring_step(cur, i as int, n);
                if i == RX_BUFS {
                    lemma_ring_wrap(cur, n);
                    assert(self.rx_slot(&prev, 0, i as int));
                } else {
                    assert(self.rx_slot(&prev, i as int, i as int));
                }
            }
            let desc = self.rx_ring.current();
            if desc.is_owned() {
                proof {
                    assert(i < RX_BUFS ==> rx_stop(prev.rx_descs(), cur, i as int) == i);
                }
                break;
            }
            let is_last = desc.is_last();
            proof {
                if is_last {
                    assert(rx_stop(prev.rx_descs(), cur, i as int) == i);
                }
            }
            let idx = self.rx_ring.current;
            self.rx_ring.descriptors[idx].recycle();
            self.rx_ring.advance();
            i = i + 1;
            proof {
                assert forall|j: int| 0 <= j < RX_BUFS implies #[trigger] self.rx_slot(
                    &prev,
                    j,
                    i as int,
                ) by {
                    assert(before.rx_slot(&prev, j, i - 1));
                    lemma_ring_step(cur, j, n);
                    if j != i - 1 {
                        lemma_ring_pos_injective(cur, j, i - 1, n);
                    }
                }
                if !is_last {
                    assert(rx_stop(prev.rx_descs(), cur, i - 1) == rx_stop(prev.rx_descs(), cur, i as int));
                    lemma_rx_stop(prev.rx_descs(), cur, i as int);
                }
            }
            if is_last {
                break;
            }
        }
    }

    /// Hand the `count` RX descriptors from the cursor on back to the DMA and
    /// move the cursor past them.
    fn release_rx(&mut self, count: usize)
        requires
            old(self).wf(),
            count <= RX_BUFS,
        ensures
            final(self).wf(),
            final(self).rx_consumed(old(self), count as int),
    {
        let ghost prev = *self;
        let ghost cur = self.rx_cur();
        let ghost n = RX_BUFS as int;
        proof {
            lemma_ring_start(cur, n);
        }
        let mut i: usize = 0;
        while i < count
            invariant
                self.wf(),
                prev.wf(),
                cur == prev.rx_cur(),
                n == RX_BUFS,
                count <= RX_BUFS,
                i <= count,
                self.same_tx_side(&prev),
                self.rx_cur() == ring_pos(cur, i as int, n),
                forall|j: int| 0 <= j < RX_BUFS ==> #[trigger] self.rx_slot(&prev, j, i as int),
            decreases count - i,
        {
            let ghost before = *self;
            proof {
                lemma_ring_step(cur, i as int, n);
            }
            let idx = self.rx_ring.current;
            self.rx_ring.descriptors[idx].recycle();
            self.rx_ring.advance();
            i = i + 1;
            proof {
                assert forall|j: int| 0 <= j < RX_BUFS implies #[trigger] self.rx_slot(
                    &prev,
                    j,
                    i as int,
                ) by {
                    assert(before.rx_slot(&prev, j, i - 1));
                    lemma_ring_step(cur, j, n);
                    if j != i - 1 {
                        lemma_ring_pos_injective(cur, j, i - 1, n);
                    }
                }
            }
        }
    }

    /// Copy the first `len` bytes of the frame at the RX cursor, spread over
    /// the buffers of `count` descriptors, to the front of `buffer`.
    fn copy_rx_frame(&self, buffer: &mut [u8], len: usize, count: usize)
        requires
            self.wf(),
            1 <= count <= RX_BUFS,
            len <= old(buffer)@.len(),
            len <= count * BUF_SIZE,
        ensures
            final(buffer)@ == self.rx_frame_data(len as int) + old(buffer)@.skip(len as int),
    {
        let ghost orig = buffer@;
        let ghost n = RX_BUFS as int;
        let ghost b = BUF_SIZE as int;
        let blen = buffer.len();
        let mut copied: usize = 0;
        let mut i: usize = 0;
        while i < count
            invariant
                self.wf(),
                n == RX_BUFS,
                b == BUF_SIZE,
                1 <= count <= RX_BUFS,
                len <= blen,
                blen == orig.len(),
                buffer@.len() == blen,
                len <= count * b,
                i <= count,
                i < count ==> copied == (if i * b <= len { i * b } else { len as int }),
                i == count ==> copied == len,
                copied <= len,
                forall|p: int| 0 <= p < copied ==> #[trigger] buffer@[p] == self.rx_frame_byte(p),
                forall|p: int| copied <= p < blen ==> #[trigger] buffer@[p] == orig[p],
            decreases count - i,
        {
            let idx = (self.rx_ring.current + i) % RX_BUFS;
            proof {
                lemma_ring_step(self.rx_cur(), i as int, n);
            }
            let remaining = len - copied;
            let copy_len = if i + 1 == count || remaining < BUF_SIZE {
                remaining
            } else {
                BUF_SIZE
            };
            proof {
                if i + 1 == count {
                    if i * b <= len {
                        assert(len - i * b <= b) by (nonlinear_arith)
                            requires
                                len <= count * b,
                                i + 1 == count,
                        ;
                    }
                }
                if copy_len > 0 {
                    assert(copied == i * b);
                }
            }
            let ghost start = buffer@;
            let mut j: usize = 0;
            while j < copy_len
                invariant
                    self.wf(),
                    n == RX_BUFS,
                    b == BUF_SIZE,
                    idx == ring_pos(self.rx_cur(), i as int, n),
                    0 <= idx < n,
                    copy_len <= b,
                    copy_len > 0 ==> copied == i * b,
                    copied + copy_len <= len,
                    len <= blen,
                    buffer@.len() == blen,
                    j <= copy_len,
                    forall|p: int| 0 <= p < copied + j ==> #[trigger] buffer@[p] == self.rx_frame_byte(p),
                    forall|p: int| copied + j <= p < blen ==> #[trigger] buffer@[p] == orig[p],
                decreases copy_len - j,
            {
                proof {
                    lemma_frame_offset(i as int, j as int, b);
                    assert(self.rx_buffers@[idx as int]@.len() == BUF_SIZE);
                }
                let v = self.rx_buffers[idx][j];
                buffer[copied + j] = v;
                j = j + 1;
            }
            copied = copied + copy_len;
            i = i + 1;
            proof {
                if i < count {
                    if i * b <= len {
                        assert(i * b == (i - 1) * b + b) by (nonlinear_arith);
                        assert((i - 1) * b <= len) by (nonlinear_arith)
                            requires
                                i * b <= len,
                                b > 0,
                        ;
                    } else {
                        assert(i * b == (i - 1) * b + b) by (nonlinear_arith);
                    }
                }
            }
        }
        proof {
            assert(buffer@ =~= self.rx_frame_data(len as int) + orig.skip(len as int));
        }
    }

    /// What `receive` on `prev` into a buffer holding `before` gives: `self`,
    /// the buffer's new contents `after` and the result `r`.
    pub open spec fn receive_result(
        &self,
        prev: &Self,
        before: Seq<u8>,
        after: Seq<u8>,
        r: Result<usize>,
    ) -> bool {
        let s = prev.rx_descs();
        let cur = prev.rx_cur();
        let w = s[cur].rdes0;
        let len = rx_frame_len(s, cur);
        let m = rx_flush_count(s, cur);
        &&& self.wf()
        &&& rx_owned(w) ==> r == Err::<usize, Error>(Error::Io(IoError::IncompleteFrame)) && *self
            == *prev && after == before
        &&& !rx_owned(w) && !rx_first(w) ==> r == Err::<usize, Error>(
            Error::Io(IoError::IncompleteFrame),
        ) && self.rx_consumed(prev, m) && after == before
        &&& !rx_owned(w) && rx_first(w) && rx_error(w) ==> r == Err::<usize, Error>(
            Error::Io(IoError::FrameError),
        ) && self.rx_consumed(prev, m) && after == before
        &&& !rx_owned(w) && rx_first(w) && !rx_error(w) && rx_frame_pending(s, cur) ==> r == Err::<
            usize,
            Error,
        >(Error::Io(IoError::IncompleteFrame)) && *self == *prev && after == before
        &&& !rx_owned(w) && rx_first(w) && !rx_error(w) && !rx_frame_pending(s, cur) && len
            > before.len() ==> r == Err::<usize, Error>(Error::Io(IoError::BufferTooSmall))
            && self.rx_consumed(prev, m) && after == before
        &&& !rx_owned(w) && rx_first(w) && !rx_error(w) && !rx_frame_pending(s, cur) && len
            <= before.len() ==> r == Ok::<usize, Error>(len as usize) && self.rx_consumed(prev, m)
            && after == prev.rx_frame_data(len) + before.skip(len)
    }

    /// Whether `receive` into a buffer of `cap` bytes stays within the RX
    /// buffers: unless the frame at the cursor is complete, free of errors
    /// and fits in `cap` bytes, nothing is copied; otherwise its length is at
    /// most the total size of the buffers its descriptors span.
    pub fn rx_frame_in_buffers(&self, cap: usize) -> (r: bool)
        requires
            self.wf(),
        ensures
            r == rx_copy_fits(self.rx_descs(), self.rx_cur(), cap as int, BUF_SIZE as int),
    {
        let d = self.rx_ring.current();
        let ghost s = self.rx_descs();
        let ghost cur = self.rx_cur();
        let ghost n = RX_BUFS as int;
        if d.is_owned() || !d.is_first() || d.has_error() {
            return true;
        }
        proof {
            lemma_ring_start(cur, n);
            lemma_rx_stop(s, cur, 0);
        }
        let mut i: usize = 0;
        while i < RX_BUFS
            invariant
                self.wf(),
                s == self.rx_descs(),
                cur == self.rx_cur(),
                n == RX_BUFS,
                0 <= cur < n,
                i <= rx_stop(s, cur, 0),
                rx_stop(s, cur, 0) <= n,
                !rx_owned(s[cur].rdes0),
                rx_first(s[cur].rdes0),
                !rx_error(s[cur].rdes0),
            decreases RX_BUFS - i,
        {
            let idx = (self.rx_ring.current + i) % RX_BUFS;
            proof {
                lemma_ring_step(cur, i as int, n);
                lemma_rx_stop_from(s, cur, i as int);
            }
            let desc = &self.rx_ring.descriptors[idx];
            if desc.is_owned() || desc.is_last() {
                return self.rx_fits_at(cap, i);
            }
            proof {
                assert(rx_stop(s, cur, i as int) == rx_stop(s, cur, i + 1));
                lemma_rx_stop(s, cur, i + 1);
            }
            i = i + 1;
        }
        proof {
            assert(0 <= n * (BUF_SIZE as int)) by (nonlinear_arith)
                requires
                    n > 0,
            ;
        }
        true
    }

    /// `rx_frame_in_buffers` once the frame at the cursor is known to start
    /// there without error, with its end or a DMA-owned descriptor `stop`
    /// places on.
    fn rx_fits_at(&self, cap: usize, stop: usize) -> (r: bool)
        requires
            self.wf(),
            stop < RX_BUFS,
            stop == rx_stop(self.rx_descs(), self.rx_cur(), 0),
            !rx_owned(self.rx_descs()[self.rx_cur()].rdes0),
            rx_first(self.rx_descs()[self.rx_cur()].rdes0),
            !rx_error(self.rx_descs()[self.rx_cur()].rdes0),
        ensures
            r == rx_copy_fits(self.rx_descs(), self.rx_cur(), cap as int, BUF_SIZE as int),
    {
        let ghost s = self.rx_descs();
        let ghost cur = self.rx_cur();
        let ghost n = RX_BUFS as int;
        let idx = (self.rx_ring.current + stop) % RX_BUFS;
        proof {
            lemma_ring_step(cur, stop as int, n);
        }
        let desc = &self.rx_ring.descriptors[idx];
        if desc.is_owned() {
            return true;
        }
        let len = desc.payload_length();
        if len > cap {
            return true;
        }
        let b = BUF_SIZE;
        let m = stop + 1;
        proof {
            assert(m * b <= RX_BUFS * BUF_SIZE) by (nonlinear_arith)
                requires
                    m <= RX_BUFS,
                    b == BUF_SIZE,
            ;
        }
        len <= m * b
    }

    /// A frame delivered by `receive` is consumed: every descriptor it
    /// occupied, up to and including the one that ends it, belongs to the
    /// DMA again, and the cursor has moved past them.
    pub proof fn lemma_receive_recycles(
        &self,
        prev: &Self,
        before: Seq<u8>,
        after: Seq<u8>,
        r: Result<usize>,
    )
        requires
            prev.wf(),
            self.receive_result(prev, before, after, r),
            r is Ok,
        ensures
            ({
                let m = rx_flush_count(prev.rx_descs(), prev.rx_cur());
                &&& 1 <= m <= RX_BUFS
                &&& self.rx_cur() == ring_pos(prev.rx_cur(), m, RX_BUFS as int)
                &&& forall|j: int|
                    0 <= j < m ==> rx_owned(
                        #[trigger] self.rx_descs()[ring_pos(prev.rx_cur(), j, RX_BUFS as int)].rdes0,
                    )
            }),
    {
        let s = prev.rx_descs();
        let cur = prev.rx_cur();
        let n = RX_BUFS as int;
        lemma_rx_stop(s, cur, 0);
        assert forall|j: int| 0 <= j < rx_flush_count(s, cur) implies rx_owned(
            #[trigger] self.rx_descs()[ring_pos(cur, j, n)].rdes0,
        ) by {
            assert(self.rx_slot(prev, j, rx_flush_count(s, cur)));
            crate::regs::lemma_word_bits();
        }
    }

    /// The length `peek_frame_length` reports is the length `receive` then
    /// delivers, into a buffer that holds it.
    pub proof fn lemma_peek_then_receive(
        &self,
        prev: &Self,
        before: Seq<u8>,
        after: Seq<u8>,
        r: Result<usize>,
        len: nat,
    )
        requires
            prev.wf(),
            rx_peek(prev.rx_descs(), prev.rx_cur()) == Some(len),
            len <= before.len(),
            self.receive_result(prev, before, after, r),
        ensures
            r == Ok::<usize, Error>(len as usize),
            after == prev.rx_frame_data(len as int) + before.skip(len as int),
    {
        let s = prev.rx_descs();
        let cur = prev.rx_cur();
        let n = RX_BUFS as int;
        lemma_ring_start(cur, n);
        lemma_rx_stop(s, cur, 0);
        let w = s[cur].rdes0;
        if !(rx_first(w) && rx_last(w)) {
            assert(rx_stop(s, cur, 0) == rx_stop(s, cur, 1));
        }
    }

    /// Receive the frame at the RX cursor into `buffer`; returns its length
    /// without the CRC.
    ///
    /// A frame the DMA is still writing, or one that no descriptor of the
    /// ring ends, is left in place. A frame that does
    /// not start at the cursor, that reports an error or that does not fit
    /// into `buffer` is discarded, as a received one is consumed: its
    /// descriptors go back to the DMA. The caller then issues an RX poll
    /// demand.
    pub fn receive(&mut self, buffer: &mut [u8]) -> (r: Result<usize>)
        requires
            old(self).wf(),
            rx_copy_fits(
                old(self).rx_descs(),
                old(self).rx_cur(),
                old(buffer)@.len() as int,
                BUF_SIZE as int,
            ),
        ensures
            final(self).receive_result(old(self), old(buffer)@, final(buffer)@, r),
    {
        let first_desc = *self.rx_ring.current();
        let owned = first_desc.is_owned();
        if owned {
            return Err(Error::Io(IoError::IncompleteFrame));
        }
        let first = first_desc.is_first();
        let last = first_desc.is_last();
        let error = first_desc.has_error();
        let payload = first_desc.payload_length();
        let ghost prev = *self;
        let ghost s = prev.rx_descs();
        let ghost cur = prev.rx_cur();
        let ghost n = RX_BUFS as int;
        proof {
            lemma_ring_start(cur, n);
            lemma_rx_stop(s, cur, 0);
        }
        if first && last {
            proof {
                assert(rx_stop(s, cur, 0) == 0);
            }
            if error {
                self.release_rx(1);
                return Err(Error::Io(IoError::FrameError));
            }
            let frame_len = payload;
            if buffer.len() < frame_len {
                self.release_rx(1);
                return Err(Error::Io(IoError::BufferTooSmall));
            }
            self.copy_rx_frame(buffer, frame_len, 1);
            self.release_rx(1);
            return Ok(frame_len);
        }
        if !first {
            self.flush_rx_frame();
            return Err(Error::Io(IoError::IncompleteFrame));
        }
        if error {
            self.flush_rx_frame();
            return Err(Error::Io(IoError::FrameError));
        }
        let mut frame_len: usize = 0;
        let mut count: usize = 0;
        let mut found = false;
        let mut i: usize = 0;
        while i < RX_BUFS
            invariant_except_break
                count == i,
                frame_len == 0,
                !found,
                i <= rx_stop(s, cur, 0),
            invariant
                self.wf(),
                *self == prev,
                prev == *old(self),
                buffer@ == old(buffer)@,
                !rx_owned(s[cur].rdes0),
                rx_first(s[cur].rdes0),
                !rx_last(s[cur].rdes0),
                !rx_error(s[cur].rdes0),
                s == prev.rx_descs(),
                cur == prev.rx_cur(),
                n == RX_BUFS,
                0 <= cur < n,
                i <= RX_BUFS,
                rx_stop(s, cur, 0) <= RX_BUFS,
            ensures
                found ==> rx_stop(s, cur, 0) < n && !rx_owned(s[ring_pos(cur, rx_stop(s, cur, 0), n)].rdes0)
                    && frame_len == rx_payload_length(s[ring_pos(cur, rx_stop(s, cur, 0), n)].rdes0)
                    && count == rx_stop(s, cur, 0) + 1,
                !found ==> rx_stop(s, cur, 0) == n,
            decreases RX_BUFS - i,
        {
            let idx = (self.rx_ring.current + i) % RX_BUFS;
            proof {
                lemma_ring_step(cur, i as int, n);
                lemma_rx_stop_from(s, cur, i as int);
            }
            let desc = &self.rx_ring.descriptors[idx];
            if desc.is_owned() {
                proof {
                    assert(rx_stop(s, cur, i as int) == i);
                }
                return Err(Error::Io(IoError::IncompleteFrame));
            }
            count = count + 1;
            if desc.is_last() {
                proof {
                    assert(rx_stop(s, cur, i as int) == i);
                }
                frame_len = desc.payload_length();
                found = true;
                break;
            }
            proof {
                assert(rx_stop(s, cur, i as int) == rx_stop(s, cur, i + 1));
                lemma_rx_stop(s, cur, i + 1);
            }
            i = i + 1;
        }
        if !found {
            return Err(Error::Io(IoError::IncompleteFrame));
        }
        if buffer.len() < frame_len {
            self.flush_rx_frame();
            return Err(Error::Io(IoError::BufferTooSmall));
        }
        self.copy_rx_frame(buffer, frame_len, count);
        self.release_rx(count);
        Ok(frame_len)
    }

    /// Chain the descriptors into rings and mark the engine initialized.
    ///
    /// The RX descriptor ring sits at bus address `rx_ring_addr`, the TX one
    /// at `tx_ring_addr` (descriptors are 32 bytes each), and buffer `i` at
    /// `rx_buf_addrs[i]` and `tx_buf_addrs[i]`. RX descriptor `i` points at
    /// its buffer and at descriptor `i + 1`, the last one at the first, and is
    /// handed to the DMA; TX descriptors are chained the same way and stay
    /// with the CPU. Both cursors go back to 0. The caller then writes the
    /// ring addresses into the DMA registers.
    pub fn init(&mut self, rx_ring_addr: u32, tx_ring_addr: u32, rx_buf_addrs: &[u32], tx_buf_addrs: &[u32])
        requires
            old(self).wf(),
            rx_buf_addrs@.len() == RX_BUFS,
            tx_buf_addrs@.len() == TX_BUFS,
            desc_addr(rx_ring_addr, RX_BUFS - 1) <= u32::MAX,
            desc_addr(tx_ring_addr, TX_BUFS - 1) <= u32::MAX,
        ensures
            final(self).wf(),
            final(self).is_init(),
            final(self).rx_cur() == 0,
            final(self).tx_cur() == 0,
            final(self).ctrl_flags() == old(self).ctrl_flags(),
            forall|i: int| 0 <= i < RX_BUFS ==> #[trigger] final(self).rx_buf(i) == old(self).rx_buf(i),
            forall|i: int| 0 <= i < TX_BUFS ==> #[trigger] final(self).tx_buf(i) == old(self).tx_buf(i),
            forall|i: int|
                0 <= i < RX_BUFS ==> #[trigger] final(self).rx_descs()[i] == rx_chained(
                    old(self).rx_descs()[i],
                    rx_buf_addrs@[i],
                    BUF_SIZE,
                    desc_addr(rx_ring_addr, (i + 1) % (RX_BUFS as int)) as u32,
                ),
            forall|i: int|
                0 <= i < TX_BUFS ==> #[trigger] final(self).tx_descs()[i] == tx_chained(
                    old(self).tx_descs()[i],
                    tx_buf_addrs@[i],
                    desc_addr(tx_ring_addr, (i + 1) % (TX_BUFS as int)) as u32,
                ),
    {
        let ghost prev = *self;
        let mut i: usize = 0;
        while i < RX_BUFS
            invariant
                self.wf(),
                prev.wf(),
                i <= RX_BUFS,
                rx_buf_addrs@.len() == RX_BUFS,
                desc_addr(rx_ring_addr, RX_BUFS - 1) <= u32::MAX,
                self.same_rx_buffers_and_tx(&prev),
                self.rx_ring.current == prev.rx_ring.current,
                forall|j: int|
                    0 <= j < RX_BUFS ==> #[trigger] self.rx_descs()[j] == if j < i {
                        rx_chained(
                            prev.rx_descs()[j],
                            rx_buf_addrs@[j],
                            BUF_SIZE,
                            desc_addr(rx_ring_addr, (j + 1) % (RX_BUFS as int)) as u32,
                        )
                    } else {
                        prev.rx_descs()[j]
                    },
            decreases RX_BUFS - i,
        {
            let next_idx = (i + 1) % RX_BUFS;
            proof {
                assert(next_idx * 32 <= (RX_BUFS - 1) * 32) by (nonlinear_arith)
                    requires
                        next_idx <= RX_BUFS - 1,
                ;
            }
            let next = rx_ring_addr + (next_idx as u32) * 32;
            let ghost before = *self;
            self.rx_ring.descriptors[i].setup_chained(rx_buf_addrs[i], BUF_SIZE, next);
            proof {
                assert(next == desc_addr(rx_ring_addr, (i + 1) % (RX_BUFS as int)) as u32);
                assert(self.rx_descs()[i as int] == rx_chained(before.rx_descs()[i as int], rx_buf_addrs@[i as int], BUF_SIZE, next));
                assert forall|j: int| 0 <= j < RX_BUFS implies #[trigger] self.rx_descs()[j] == if j
                    < i + 1 {
                    rx_chained(
                        prev.rx_descs()[j],
                        rx_buf_addrs@[j],
                        BUF_SIZE,
                        desc_addr(rx_ring_addr, (j + 1) % (RX_BUFS as int)) as u32,
                    )
                } else {
                    prev.rx_descs()[j]
                } by {
                    assert(before.rx_descs()[j] == before.rx_descs()[j]);
                }
            }
            i = i + 1;
        }
        let mut i: usize = 0;
        while i < TX_BUFS
            invariant
                self.wf(),
                prev.wf(),
                i <= TX_BUFS,
                tx_buf_addrs@.len() == TX_BUFS,
                desc_addr(tx_ring_addr, TX_BUFS - 1) <= u32::MAX,
                self.rx_buffers@ == prev.rx_buffers@,
                self.tx_buffers@ == prev.tx_buffers@,
                self.tx_ctrl_flags == prev.tx_ctrl_flags,
                self.tx_ring.current == prev.tx_ring.current,
                forall|j: int|
                    0 <= j < RX_BUFS ==> #[trigger] self.rx_descs()[j] == rx_chained(
                        prev.rx_descs()[j],
                        rx_buf_addrs@[j],
                        BUF_SIZE,
                        desc_addr(rx_ring_addr, (j + 1) % (RX_BUFS as int)) as u32,
                    ),
                forall|j: int|
                    0 <= j < TX_BUFS ==> #[trigger] self.tx_descs()[j] == if j < i {
                        tx_chained(
                            prev.tx_descs()[j],
                            tx_buf_addrs@[j],
                            desc_addr(tx_ring_addr, (j + 1) % (TX_BUFS as int)) as u32,
                        )
                    } else {
                        prev.tx_descs()[j]
                    },
            decreases TX_BUFS - i,
        {
            let next_idx = (i + 1) % TX_BUFS;
            proof {
                assert(next_idx * 32 <= (TX_BUFS - 1) * 32) by (nonlinear_arith)
                    requires
                        next_idx <= TX_BUFS - 1,
                ;
            }
            let next = tx_ring_addr + (next_idx as u32) * 32;
            let ghost before = *self;
            self.tx_ring.descriptors[i].setup_chained(tx_buf_addrs[i], next);
            proof {
                assert(next == desc_addr(tx_ring_addr, (i + 1) % (TX_BUFS as int)) as u32);
                assert(self.tx_descs()[i as int] == tx_chained(before.tx_descs()[i as int], tx_buf_addrs@[i as int], next));
                assert forall|j: int| 0 <= j < TX_BUFS implies #[trigger] self.tx_descs()[j] == if j
                    < i + 1 {
                    tx_chained(
                        prev.tx_descs()[j],
                        tx_buf_addrs@[j],
                        desc_addr(tx_ring_addr, (j + 1) % (TX_BUFS as int)) as u32,
                    )
                } else {
                    prev.tx_descs()[j]
                } by {
                    assert(before.tx_descs()[j] == before.tx_descs()[j]);
                }
                assert forall|j: int| 0 <= j < RX_BUFS implies #[trigger] self.rx_descs()[j]
                    == before.rx_descs()[j] by {}
            }
            i = i + 1;
        }
        let ghost chained = *self;
        self.rx_ring.reset();
        self.tx_ring.reset();
        self.initialized = true;
        proof {
            assert(self.rx_descs() == chained.rx_descs());
            assert(self.tx_descs() == chained.tx_descs());
        }
    }

    /// The TX side, the RX buffers and the control flags of `self` are those
    /// of `prev`.
    closed spec fn same_rx_buffers_and_tx(&self, prev: &Self) -> bool {
        &&& self.rx_buffers@ == prev.rx_buffers@
        &&& self.tx_buffers@ == prev.tx_buffers@
        &&& self.tx_ring == prev.tx_ring
        &&& self.tx_ctrl_flags == prev.tx_ctrl_flags
    }

    /// Hand every RX descriptor back to the DMA, clear every TX descriptor
    /// and move both cursors back to 0; the chain links and the buffers stay.
    /// The caller stops the DMA first and then
    /// writes the ring addresses into the DMA registers again.
    pub fn reset(&mut self)
        requires
            old(self).wf(),
        ensures
            final(self).wf(),
            final(self).rx_cur() == 0,
            final(self).tx_cur() == 0,
            final(self).is_init() == old(self).is_init(),
            final(self).ctrl_flags() == old(self).ctrl_flags(),
            forall|i: int| 0 <= i < RX_BUFS ==> #[trigger] final(self).rx_buf(i) == old(self).rx_buf(i),
            forall|i: int| 0 <= i < TX_BUFS ==> #[trigger] final(self).tx_buf(i) == old(self).tx_buf(i),
            forall|i: int|
                0 <= i < RX_BUFS ==> #[trigger] final(self).rx_descs()[i] == rx_recycled(
                    old(self).rx_descs()[i],
                ),
            forall|i: int|
                0 <= i < TX_BUFS ==> #[trigger] final(self).tx_descs()[i] == tx_cleared(
                    old(self).tx_descs()[i],
                ),
    {
        let ghost prev = *self;
        let mut i: usize = 0;
        while i < RX_BUFS
            invariant
                self.wf(),
                prev.wf(),
                i <= RX_BUFS,
                self.same_rx_buffers_and_tx(&prev),
                self.rx_ring.current == prev.rx_ring.current,
                self.initialized == prev.initialized,
                forall|j: int|
                    0 <= j < RX_BUFS ==> #[trigger] self.rx_descs()[j] == if j < i {
                        rx_recycled(prev.rx_descs()[j])
                    } else {
                        prev.rx_descs()[j]
                    },
            decreases RX_BUFS - i,
        {
            let ghost before = *self;
            self.rx_ring.descriptors[i].recycle();
            proof {
                assert(self.rx_descs()[i as int] == rx_recycled(before.rx_descs()[i as int]));
                assert forall|j: int| 0 <= j < RX_BUFS implies #[trigger] self.rx_descs()[j] == if j
                    < i + 1 {
                    rx_recycled(prev.rx_descs()[j])
                } else {
                    prev.rx_descs()[j]
                } by {
                    assert(before.rx_descs()[j] == before.rx_descs()[j]);
                }
            }
            i = i + 1;
        }
        let mut i: usize = 0;
        while i < TX_BUFS
            invariant
                self.wf(),
                prev.wf(),
                i <= TX_BUFS,
                self.rx_buffers@ == prev.rx_buffers@,
                self.tx_buffers@ == prev.tx_buffers@,
                self.tx_ctrl_flags == prev.tx_ctrl_flags,
                self.tx_ring.current == prev.tx_ring.current,
                self.initialized == prev.initialized,
                forall|j: int|
                    0 <= j < RX_BUFS ==> #[trigger] self.rx_descs()[j] == rx_recycled(prev.rx_descs()[j]),
                forall|j: int|
                    0 <= j < TX_BUFS ==> #[trigger] self.tx_descs()[j] == if j < i {
                        tx_cleared(prev.tx_descs()[j])
                    } else {
                        prev.tx_descs()[j]
                    },
            decreases TX_BUFS - i,
        {
            let ghost before = *self;
            self.tx_ring.descriptors[i].reset();
            proof {
                assert(self.tx_descs()[i as int] == tx_cleared(before.tx_descs()[i as int]));
                assert forall|j: int| 0 <= j < TX_BUFS implies #[trigger] self.tx_descs()[j] == if j
                    < i + 1 {
                    tx_cleared(prev.tx_descs()[j])
                } else {
                    prev.tx_descs()[j]
                } by {
                    assert(before.tx_descs()[j] == before.tx_descs()[j]);
                }
                assert forall|j: int| 0 <= j < RX_BUFS implies #[trigger] self.rx_descs()[j]
                    == before.rx_descs()[j] by {}
            }
            i = i + 1;
        }
        let ghost cleared = *self;
        self.rx_ring.reset();
        self.tx_ring.reset();
        proof {
            assert(self.rx_descs() == cleared.rx_descs());
            assert(self.tx_descs() == cleared.tx_descs());
        }
    }

    /// Memory address of the RX descriptor ring, as the DMA sees it on the
    /// 32-bit target. Where the engine sits in memory is not known to the
    /// contracts, so nothing is stated of it.
    pub fn rx_ring_base(&self) -> u32 {
        self.rx_ring.base_addr_u32()
    }

    /// Memory address of the TX descriptor ring, as the DMA sees it on the
    /// 32-bit target; nothing is stated of it, as for `rx_ring_base`.
    pub fn tx_ring_base(&self) -> u32 {
        self.tx_ring.base_addr_u32()
    }

    /// Current RX index.
    pub fn rx_current_index(&self) -> (r: usize)
        ensures
            r == self.rx_cur(),
    {
        self.rx_ring.current_index()
    }

    /// Current TX index.
    pub fn tx_current_index(&self) -> (r: usize)
        ensures
            r == self.tx_cur(),
    {
        self.tx_ring.current_index()
    }

    /// RX buffer at `index`, taken modulo the number of buffers.
    pub fn rx_buffer(&self, index: usize) -> (r: &[u8])
        requires
            self.wf(),
        ensures
            r@ == self.rx_buf(index as int % RX_BUFS as int),
    {
        self.rx_buffers[index % RX_BUFS].as_slice()
    }

    /// TX buffer at `index`, taken modulo the number of buffers.
    pub fn tx_buffer(&self, index: usize) -> (r: &[u8])
        requires
            self.wf(),
        ensures
            r@ == self.tx_buf(index as int % TX_BUFS as int),
    {
        self.tx_buffers[index % TX_BUFS].as_slice()
    }

    /// RX descriptor `index` of the ring, taken modulo the ring size; the
    /// hardware layer takes descriptor addresses from it.
    pub fn rx_descriptor(&self, index: usize) -> (r: &RxDescriptor)
        requires
            self.wf(),
        ensures
            *r == self.rx_descs()[index as int % RX_BUFS as int],
    {
        self.rx_ring.get(index)
    }

    /// TX descriptor `index` of the ring, taken modulo the ring size.
    pub fn tx_descriptor(&self, index: usize) -> (r: &TxDescriptor)
        requires
            self.wf(),
        ensures
            *r == self.tx_descs()[index as int % TX_BUFS as int],
    {
        self.tx_ring.get(index)
    }

    /// Whether `init` has run.
    pub fn is_initialized(&self) -> (r: bool)
        ensures
            r == self.is_init(),
    {
        self.initialized
    }

    /// Set the TX control flags (checksum offload, etc).
    pub fn set_tx_ctrl_flags(&mut self, flags: u32)
        ensures
            final(self).ctrl_flags() == flags,
            final(self).rx_descs() == old(self).rx_descs(),
            final(self).tx_descs() == old(self).tx_descs(),
            final(self).rx_cur() == old(self).rx_cur(),
            final(self).tx_cur() == old(self).tx_cur(),
            final(self).is_init() == old(self).is_init(),
            old(self).wf() ==> final(self).wf(),
            forall|i: int| #[trigger] final(self).rx_buf(i) == old(self).rx_buf(i),
            forall|i: int| #[trigger] final(self).tx_buf(i) == old(self).tx_buf(i),
    {
        self.tx_ctrl_flags = flags;
    }

    /// The TX control flags.
    pub fn tx_ctrl_flags(&self) -> (r: u32)
        ensures
            r == self.ctrl_flags(),
    {
        self.tx_ctrl_flags
    }

    /// Count the TX descriptors available to the CPU, in ring order from the
    /// cursor up to the first one the DMA owns.
    pub fn tx_available(&self) -> (r: usize)
        requires
            self.wf(),
        ensures
            r == tx_owned_stop(self.tx_descs(), self.tx_cur(), 0),
            r <= TX_BUFS,
    {
        let mut count: usize = 0;
        let mut i: usize = 0;
        while i < TX_BUFS
            invariant
                self.wf(),
                i <= TX_BUFS,
                count == i,
                tx_owned_stop(self.tx_descs(), self.tx_cur(), 0) == tx_owned_stop(
                    self.tx_descs(),
                    self.tx_cur(),
                    i as int,
                ),
            decreases TX_BUFS - i,
        {
            let idx = (self.tx_ring.current + i) % TX_BUFS;
            if !self.tx_ring.descriptors[idx].is_owned() {
                count = count + 1;
            } else {
                return count;
            }
            i = i + 1;
        }
        count
    }

    /// Count the RX descriptors the DMA owns (free for reception).
    pub fn rx_free_count(&self) -> (r: usize)
        requires
            self.wf(),
        ensures
            r == rx_owned_count(self.rx_descs(), RX_BUFS as int),
    {
        let mut count: usize = 0;
        let mut i: usize = 0;
        while i < RX_BUFS
            invariant
                self.wf(),
                i <= RX_BUFS,
                count == rx_owned_count(self.rx_descs(), i as int),
                count <= i,
            decreases RX_BUFS - i,
        {
            if self.rx_ring.descriptors[i].is_owned() {
                count = count + 1;
            }
            i = i + 1;
        }
        count
    }

    /// Check if the descriptor at the RX cursor holds the end of a frame.
    pub fn rx_available(&self) -> (r: bool)
        requires
            self.wf(),
        ensures
            r == (!rx_owned(self.rx_descs()[self.rx_cur()].rdes0) && rx_last(
                self.rx_descs()[self.rx_cur()].rdes0,
            )),
    {
        let desc = self.rx_ring.current();
        !desc.is_owned() && desc.is_last()
    }

    /// Count the complete frames waiting in the RX ring: the frame ends among
    /// the CPU-owned descriptors from the cursor up to the first DMA-owned one.
    pub fn rx_frame_count(&self) -> (r: usize)
        requires
            self.wf(),
        ensures
            r == rx_last_count(
                self.rx_descs(),
                self.rx_cur(),
                rx_owned_stop(self.rx_descs(), self.rx_cur(), 0),
            ),
    {
        let mut count: usize = 0;
        let mut idx: usize = self.rx_ring.current;
        let mut i: usize = 0;
        proof {
            lemma_ring_start(self.rx_cur(), RX_BUFS as int);
        }
        while i < RX_BUFS
            invariant
                self.wf(),
                i <= RX_BUFS,
                idx == ring_pos(self.rx_cur(), i as int, RX_BUFS as int),
                count == rx_last_count(self.rx_descs(), self.rx_cur(), i as int),
                count <= i,
                rx_owned_stop(self.rx_descs(), self.rx_cur(), 0) == rx_owned_stop(
                    self.rx_descs(),
                    self.rx_cur(),
                    i as int,
                ),
            decreases RX_BUFS - i,
        {
            let owned = self.rx_ring.descriptors[idx].is_owned();
            if owned {
                return count;
            }
            if self.rx_ring.descriptors[idx].is_last() {
                count = count + 1;
            }
            proof {
                lemma_ring_step(self.rx_cur(), i as int, RX_BUFS as int);
            }
            idx = (idx + 1) % RX_BUFS;
            i = i + 1;
        }
        count
    }
}

impl<const RX_BUFS: usize, const TX_BUFS: usize, const BUF_SIZE: usize> Default for DmaEngine<
    RX_BUFS,
    TX_BUFS,
    BUF_SIZE,
> {
    /// Same as `new`.
    fn default() -> (e: Self)
        ensures
            Self::valid_dims() ==> e.wf(),
            !e.is_init(),
            e.ctrl_flags() == 0,
            e.rx_cur() == 0,
            e.tx_cur() == 0,
            forall|i: int| 0 <= i < RX_BUFS ==> #[trigger] e.rx_descs()[i] == rx_zeroed(),
            forall|i: int| 0 <= i < TX_BUFS ==> #[trigger] e.tx_descs()[i] == tx_zeroed(),
    {
        Self::new()
    }
}

} // verus!
