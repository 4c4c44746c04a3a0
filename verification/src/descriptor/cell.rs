//! A value cell for descriptor words.

use vstd::prelude::*;

verus! {

/// A cell holding one descriptor word (or any `Copy` value).
#[derive(Debug)]
pub struct VolatileCell<T: Copy> {
    value: T,
}

impl<T: Copy> VolatileCell<T> {
    /// The value held.
    pub closed spec fn value(self) -> T {
        self.value
    }

    /// Create a new cell with the given initial value.
    pub fn new(value: T) -> (c: Self)
        ensures
            c.value() == value,
    {
        VolatileCell { value }
    }

    /// Read the value.
    pub fn get(&self) -> (v: T)
        ensures
            v == self.value(),
    {
        self.value
    }

    /// Write a value.
    pub fn set(&mut self, value: T)
        ensures
            final(self).value() == value,
    {
        self.value = value;
    }

    /// Replace the value by `f` applied to it (read-modify-write).
    pub fn update<F: FnOnce(T) -> T>(&mut self, f: F)
        requires
            f.requires((old(self).value(),)),
        ensures
            f.ensures((old(self).value(),), final(self).value()),
    {
        let old_v = self.value;
        self.value = f(old_v);
    }
}

} // verus!
