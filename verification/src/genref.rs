use crate::mode::{Exclusive, Mutability, Shared};
use vstd::prelude::*;

verus! {

/// A mode-parameterized handle to a value of type `T`.
///
/// `GenRef<M, T>` stands for either a read-only view (`M = Shared`) or a
/// read-write view (`M = Exclusive`) of one value, so that a single body of
/// generic code serves both access kinds. The handle is move-only: it takes
/// the value at conversion-in and surrenders it at conversion-out, so under
/// the exclusive mode no second view of the value can coexist with it by
/// construction. Short-lived access in the middle of that span goes through
/// the handle's own borrows (`&self` for reading in either mode, `&mut self`
/// for writing), which play the role of reborrowing: the handle itself is
/// unusable until the borrow ends.
///
/// The mode discipline is enforced by verification: every operation that
/// only the exclusive mode permits requires `!M::spec_is_shared()`, and
/// every operation that presumes aliasing is harmless requires
/// `M::spec_is_shared()`, so a wrong-mode call is rejected before the
/// program runs.
#[derive(Debug)]
pub struct GenRef<M: Mutability, T> {
    pub(crate) mode: M,
    pub(crate) value: T,
}

impl<M: Mutability, T> View for GenRef<M, T> {
    type V = T;

    /// A handle's view is the value it gives access to.
    closed spec fn view(&self) -> T {
        self.value
    }
}

impl<T> GenRef<Shared, T> {
    /// Conversion-in for the shared mode: wrap a value as a read-only handle.
    pub fn from_shared(value: T) -> (r: GenRef<Shared, T>)
        ensures
            r@ == value,
    {
        GenRef { mode: Shared, value }
    }
}

impl<T> GenRef<Exclusive, T> {
    /// Conversion-in for the exclusive mode: wrap a value as a read-write
    /// handle.
    pub fn from_exclusive(value: T) -> (r: GenRef<Exclusive, T>)
        ensures
            r@ == value,
    {
        GenRef { mode: Exclusive, value }
    }
}

impl<M: Mutability, T> GenRef<M, T> {
    /// Mode-generic constructor: wrap a value under the mode of the given
    /// token. Mode-generic callers (the projection adapters, the iterator)
    /// use it to hand out derived handles of the same mode as their input;
    /// outside callers convert in through [`GenRef::from_shared`] or
    /// [`GenRef::from_exclusive`], one way per mode.
    pub(crate) fn new(mode: M, value: T) -> (r: GenRef<M, T>)
        ensures
            r@ == value,
    {
        GenRef { mode, value }
    }

    /// A copy of this handle's mode token.
    pub fn mode(&self) -> (m: M) {
        self.mode
    }

    /// Conversion-out: surrender the handle and recover the value, ending
    /// the access span.
    pub fn into_inner(self) -> (v: T)
        ensures
            v == self@,
    {
        self.value
    }

    /// Dereference for reading: permitted under either mode.
    pub fn get(&self) -> (r: &T)
        ensures
            *r == self@,
    {
        &self.value
    }

    /// Dereference for writing by replacement: permitted only under the
    /// exclusive mode; a call on a shared-mode handle fails verification.
    pub fn set(&mut self, v: T)
        requires
            !M::spec_is_shared(),
        ensures
            final(self)@ == v,
    {
        self.value = v;
    }

    /// Dereference for writing in place: a mutable borrow of the held value,
    /// permitted only under the exclusive mode. The handle's view after the
    /// call is whatever the caller leaves behind the borrow.
    pub fn get_mut(&mut self) -> (r: &mut T)
        requires
            !M::spec_is_shared(),
        ensures
            *r == old(self)@,
            final(self)@ == *final(r),
    {
        &mut self.value
    }

    /// Duplicate a shared-mode handle: shared views may alias freely, so a
    /// second handle to the same value is harmless. A call on an
    /// exclusive-mode handle fails verification, which is exactly the
    /// no-aliasing guarantee of that mode.
    pub fn duplicate(&self) -> (r: GenRef<M, T>) where T: Copy
        requires
            M::spec_is_shared(),
        ensures
            r@ == self@,
    {
        GenRef { mode: self.mode, value: self.value }
    }
}

} // verus!
