//! The null device: reads end at once, writes are swallowed whole.

use vstd::prelude::*;

verus! {

/// The null device; it has no state at all.
#[derive(Clone, Copy, Debug, PartialEq, Eq, Structural)]
pub struct Nulldev;

impl Nulldev {
    /// Opens the device; this never fails.
    pub fn open() -> (r: Nulldev) {
        Nulldev
    }

    /// Reads nothing, whatever the offset and the requested length.
    pub fn read(&self, offset: u64, requested: usize) -> (r: Vec<u8>)
        ensures
            r@ == Seq::<u8>::empty(),
    {
        Vec::new()
    }

    /// Consumes all of `data` and discards it.
    pub fn write(&self, data: &[u8], offset: u64) -> (r: usize)
        ensures
            r == data@.len(),
    {
        data.len()
    }
}

} // verus!
