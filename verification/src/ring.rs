//! Circular descriptor ring with a wrapping cursor.

use vstd::prelude::*;
use vstd::std_specs::iter::IteratorSpec;

verus! {

/// The address of the first element of `items`, cut to 32 bits; made with
/// `<[D; N]>::as_ptr`. It is where the array sits in memory, so its
/// contract states nothing of the result.
#[verifier::external_body]
fn array_addr_u32<D, const N: usize>(items: &[D; N]) -> u32 {
    items.as_ptr() as usize as u32
}

/// Circular descriptor ring with wraparound index.
pub struct DescriptorRing<D, const N: usize> {
    /// Array of descriptors
    pub descriptors: [D; N],
    /// Current index for processing
    pub current: usize,
}

impl<D, const N: usize> DescriptorRing<D, N> {
    /// The descriptors, in ring order from index 0.
    pub open spec fn items(&self) -> Seq<D> {
        self.descriptors@
    }

    /// The cursor.
    pub open spec fn cursor(&self) -> nat {
        self.current as nat
    }

    /// Well-formed: the cursor is an index of the ring (0 for an empty ring).
    pub open spec fn wf(&self) -> bool {
        &&& self.descriptors@.len() == N
        &&& (self.current < N || (N == 0 && self.current == 0))
    }

    /// Create a new descriptor ring from an existing array; the cursor is 0.
    pub fn from_array(descriptors: [D; N]) -> (r: Self)
        ensures
            r.wf(),
            r.items() == descriptors@,
            r.cursor() == 0,
    {
        DescriptorRing { descriptors, current: 0 }
    }

    /// Address of the first descriptor, cut to 32 bits: the bus address on
    /// the 32-bit target. Where the ring sits in memory is up to the
    /// machine, so nothing is stated of it.
    pub fn base_addr_u32(&self) -> u32 {
        array_addr_u32(&self.descriptors)
    }

    /// Get the number of descriptors in the ring.
    pub fn len(&self) -> (r: usize)
        ensures
            r == N,
    {
        N
    }

    /// Check if the ring is empty (only for a zero-sized ring).
    pub fn is_empty(&self) -> (r: bool)
        ensures
            r == (N == 0),
    {
        N == 0
    }

    /// Get the current index.
    pub fn current_index(&self) -> (r: usize)
        ensures
            r == self.cursor(),
    {
        self.current
    }

    /// Advance the current index by one, wrapping around.
    pub fn advance(&mut self)
        requires
            old(self).wf(),
            N > 0,
        ensures
            final(self).wf(),
            final(self).items() == old(self).items(),
            final(self).cursor() == (old(self).cursor() + 1) % (N as nat),
    {
        self.current = (self.current + 1) % N;
    }

    /// Advance the current index by `n`, wrapping around.
    pub fn advance_by(&mut self, n: usize)
        requires
            old(self).wf(),
            N > 0,
            old(self).cursor() + n <= usize::MAX,
        ensures
            final(self).wf(),
            final(self).items() == old(self).items(),
            final(self).cursor() == (old(self).cursor() + n) % (N as int),
    {
        self.current = (self.current + n) % N;
    }

    /// Reset the current index to 0.
    pub fn reset(&mut self)
        requires
            old(self).wf(),
        ensures
            final(self).wf(),
            final(self).items() == old(self).items(),
            final(self).cursor() == 0,
    {
        self.current = 0;
    }

    /// Get a reference to the current descriptor.
    pub fn current(&self) -> (r: &D)
        requires
            self.wf(),
            N > 0,
        ensures
            *r == self.items()[self.cursor() as int],
    {
        &self.descriptors[self.current]
    }

    /// Get a mutable reference to the current descriptor.
    pub fn current_mut(&mut self) -> (r: &mut D)
        requires
            old(self).wf(),
            N > 0,
        ensures
            *r == old(self).items()[old(self).cursor() as int],
            final(self).items() == old(self).items().update(old(self).cursor() as int, *final(r)),
            final(self).cursor() == old(self).cursor(),
            final(self).wf(),
    {
        &mut self.descriptors[self.current]
    }

    /// Get a reference to the descriptor at `index` (taken modulo the ring size).
    pub fn get(&self, index: usize) -> (r: &D)
        requires
            self.wf(),
            N > 0,
        ensures
            *r == self.items()[(index % N) as int],
    {
        &self.descriptors[index % N]
    }

    /// Get a mutable reference to the descriptor at `index` (modulo the ring size).
    pub fn get_mut(&mut self, index: usize) -> (r: &mut D)
        requires
            old(self).wf(),
            N > 0,
        ensures
            *r == old(self).items()[(index % N) as int],
            final(self).items() == old(self).items().update((index % N) as int, *final(r)),
            final(self).cursor() == old(self).cursor(),
            final(self).wf(),
    {
        &mut self.descriptors[index % N]
    }

    /// Get a reference to the descriptor `offset` places after the cursor.
    pub fn at_offset(&self, offset: usize) -> (r: &D)
        requires
            self.wf(),
            N > 0,
            self.cursor() + offset <= usize::MAX,
        ensures
            *r == self.items()[((self.cursor() + offset) % (N as int)) as int],
    {
        &self.descriptors[(self.current + offset) % N]
    }

    /// Iterate over all descriptors, from index 0.
    pub fn iter(&self) -> (it: core::slice::Iter<'_, D>)
        ensures
            IteratorSpec::remaining(&it) == self.items().map_values(|d: D| &d),
    {
        broadcast use vstd::std_specs::slice::axiom_spec_slice_iter;
        broadcast use vstd::array::group_array_axioms;
        let s: &[D] = self.descriptors.as_slice();
        let it = s.iter();
        assert(IteratorSpec::remaining(&it) =~= self.items().map_values(|d: D| &d));
        it
    }
}

/// Advancing a ring of `n` descriptors by `a` and then by `b` places the
/// cursor where advancing it by `a + b` at once does.
pub proof fn lemma_advance_compose(cur: int, a: int, b: int, n: int)
    requires
        n > 0,
        cur >= 0,
        a >= 0,
        b >= 0,
    ensures
        ((cur + a) % n + b) % n == (cur + a + b) % n,
{
    vstd::arithmetic::div_mod::lemma_add_mod_noop(cur + a, b, n);
    vstd::arithmetic::div_mod::lemma_mod_twice(b, n);
    vstd::arithmetic::div_mod::lemma_add_mod_noop((cur + a) % n, b, n);
    vstd::arithmetic::div_mod::lemma_mod_twice(cur + a, n);
}

/// Advancing a ring of `n` descriptors `n` places brings the cursor back to
/// where it started.
pub proof fn lemma_advance_full_turn(cur: int, n: int)
    requires
        0 <= cur < n,
    ensures
        (cur + n) % n == cur,
{
    vstd::arithmetic::div_mod::lemma_mod_add_multiples_vanish(cur, n);
    vstd::arithmetic::div_mod::lemma_small_mod(cur as nat, n as nat);
}

} // verus!
