use crate::genref::GenRef;
use crate::mode::Mutability;
use vstd::prelude::*;

verus! {

/// Indexing adapter: project a mode-parameterized handle to an indexable
/// container into a handle, of the same mode, to one of its elements.
pub trait IndexGen<M: Mutability, T>: Sized {
    /// The sequence of elements the implementor gives access to.
    spec fn contents(&self) -> Seq<T>;

    /// Surrender the container handle for a handle to its `i`-th element,
    /// same mode. The index must be in range: an out-of-range subscript is
    /// a fault of the caller, rejected by verification rather than at
    /// runtime.
    fn index_gen(self, i: usize) -> (r: GenRef<M, T>)
        requires
            i < self.contents().len(),
        ensures
            r@ == self.contents()[i as int],
    ;
}

impl<M: Mutability, T> IndexGen<M, T> for GenRef<M, Vec<T>> {
    open spec fn contents(&self) -> Seq<T> {
        self@@
    }

    fn index_gen(self, i: usize) -> (r: GenRef<M, T>) {
        let mode: M = self.mode();
        let mut elems: Vec<T> = self.into_inner();
        let x: T = elems.remove(i);
        GenRef::new(mode, x)
    }
}

impl<M: Mutability, T> GenRef<M, Vec<T>> {
    /// Short-lived read projection: a borrow of the `i`-th element, under
    /// either mode, leaving the handle usable once the borrow ends.
    pub fn index_at(&self, i: usize) -> (r: &T)
        requires
            i < self@@.len(),
        ensures
            *r == self@@[i as int],
    {
        let v: &Vec<T> = self.get();
        &v[i]
    }

    /// Short-lived write projection: a mutable borrow of the `i`-th
    /// element, permitted only under the exclusive mode. The handle's view
    /// afterwards carries whatever the caller wrote through the borrow, so
    /// a later read projection at the same index observes the write.
    pub fn index_at_mut(&mut self, i: usize) -> (r: &mut T)
        requires
            !M::spec_is_shared(),
            i < old(self)@@.len(),
        ensures
            *r == old(self)@@[i as int],
            final(self)@@ == old(self)@@.update(i as int, *final(r)),
    {
        let v: &mut Vec<T> = self.get_mut();
        &mut v[i]
    }
}

} // verus!
