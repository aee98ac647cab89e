use crate::genref::GenRef;
use crate::mode::Mutability;
use vstd::prelude::*;

verus! {

/// Option adapter: project a mode-parameterized handle to an optional value
/// into an optional handle, of the same mode, to the contained value.
/// Absence is a normal outcome, not a failure.
pub trait OptionExt<M: Mutability, T>: Sized {
    /// The optional value the implementor gives access to.
    spec fn opt_contents(&self) -> Option<T>;

    /// Surrender the handle; receive a handle to the contained value if
    /// one is present, same mode, and `None` otherwise — if and only if.
    fn as_ref_gen(self) -> (r: Option<GenRef<M, T>>)
        ensures
            r is Some <==> self.opt_contents() is Some,
            r is Some ==> r.unwrap()@ == self.opt_contents().unwrap(),
    ;
}

impl<M: Mutability, T> OptionExt<M, T> for GenRef<M, Option<T>> {
    open spec fn opt_contents(&self) -> Option<T> {
        self@
    }

    fn as_ref_gen(self) -> (r: Option<GenRef<M, T>>) {
        let mode: M = self.mode();
        match self.into_inner() {
            Some(x) => Some(GenRef::new(mode, x)),
            None => None,
        }
    }
}

} // verus!
