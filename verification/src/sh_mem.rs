//! The handle that a caller holds on a constructed segment.

use vstd::prelude::*;
use core::marker::PhantomData;
use crate::common::ShMemOps;

verus! {

/// A constructed segment, reached through [`ShMemOps`]. It wraps the
/// platform's own kind of mapping, which removes the mapping when it goes
/// and, for an owner, destroys the backing object.
///
/// The memory is not synchronised in any way.
pub struct ShMem<T, M: ShMemOps<T>> {
    map: M,
    _marker: PhantomData<T>,
}

impl<T, M: ShMemOps<T>> ShMem<T, M> {
    /// Wraps a mapping.
    pub fn new(map: M) -> (mem: Self)
        ensures
            mem.value() == map.value(),
            mem.mapping() == map,
    {
        ShMem { map, _marker: PhantomData }
    }

    /// The mapping inside.
    pub closed spec fn mapping(&self) -> M {
        self.map
    }

    /// Gives the mapping back.
    pub fn into_inner(self) -> (map: M)
        ensures
            map == self.mapping(),
            map.value() == self.value(),
    {
        self.map
    }

    /// Overwrites the shared value through the mutable accessor.
    pub fn store(&mut self, value: T)
        ensures
            final(self).value() == value,
    {
        let r = self.get_t_mut();
        *r = value;
    }
}

impl<T, M: ShMemOps<T>> ShMemOps<T> for ShMem<T, M> {
    closed spec fn value(&self) -> T {
        self.map.value()
    }

    fn get_t(&self) -> (r: &T) {
        self.map.get_t()
    }

    fn get_t_mut(&mut self) -> (r: &mut T) {
        self.map.get_t_mut()
    }
}

impl<T, M: ShMemOps<T>> core::ops::Deref for ShMem<T, M> {
    type Target = T;

    /// Reads the shared value.
    fn deref(&self) -> (r: &T)
        ensures
            *r == self.value(),
    {
        self.get_t()
    }
}

impl<T, M: ShMemOps<T>> core::ops::DerefMut for ShMem<T, M> {
    /// Reaches the shared value for writing.
    fn deref_mut(&mut self) -> (r: &mut T)
        ensures
            *r == old(self).value(),
            final(self).value() == *final(r),
    {
        self.get_t_mut()
    }
}

} // verus!
