//! Bit definitions of the EMAC registers whose words this crate computes or
//! decodes: the DMA block, the MAC block and the MII management interface.

pub mod dma;
pub mod mac;
pub mod ext;

use vstd::prelude::*;

verus! {

/// Setting and clearing bits of a register word: a set bit reads back as
/// set, a cleared bit as clear, bits outside the mask keep their value, and
/// two set or clear steps combine into one.
pub proof fn lemma_word_bits()
    by (bit_vector)
    ensures
        forall|w: u32, m: u32| #[trigger] ((w | m) & m) == m,
        forall|w: u32, m: u32| #[trigger] ((w & !m) & m) == 0,
        forall|w: u32, m: u32, k: u32| k & m == 0 ==> #[trigger] ((w | m) & k) == w & k,
        forall|w: u32, m: u32, k: u32| k & m == 0 ==> #[trigger] ((w & !m) & k) == w & k,
        forall|w: u32, a: u32, b: u32| #[trigger] ((w & !a) & !b) == w & !(a | b),
        forall|w: u32| #[trigger] (w | 0u32) == w,
        forall|w: u32| #[trigger] (0u32 | w) == w,
        forall|w: u32| #[trigger] (w & 0u32) == 0u32,
        forall|w: u32| #[trigger] (0u32 & w) == 0u32,
        forall|w: u32| #[trigger] (w & w) == w,
{
}

} // verus!
