//! The typed-access contract that every kind of segment offers.

use vstd::prelude::*;

verus! {

/// Controls how the value in a memory region is reached.
///
/// Both accessors are views over the same memory; nothing is copied and
/// nothing is synchronised. The contract states what one process sees while
/// no other process or thread writes: whoever shares the region has to
/// coordinate access, or reads and writes may tear.
pub trait ShMemOps<T> {
    /// The value that the region holds, as this process sees it. A kind of
    /// segment that says nothing of it leaves the value unknown.
    open spec fn value(&self) -> T {
        arbitrary()
    }

    /// Gets a reference to the value in the region.
    fn get_t(&self) -> (r: &T)
        ensures
            *r == self.value(),
    ;

    /// Gets a mutable reference to the value in the region: what is written
    /// through it is what the region holds afterwards.
    fn get_t_mut(&mut self) -> (r: &mut T)
        ensures
            *r == old(self).value(),
            final(self).value() == *final(r),
    ;
}

} // verus!
