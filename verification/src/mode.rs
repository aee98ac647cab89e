use vstd::prelude::*;

verus! {

/// Compile-time access mode. Exactly two types implement it: [`Shared`]
/// (read-only access, aliasing permitted) and [`Exclusive`] (read-write
/// access, no aliasing). Generic code specializes to a mode through this
/// trait; an operation that a mode forbids carries a `requires` clause over
/// [`Mutability::spec_is_shared`], so misuse is rejected when the program is
/// verified, before it ever runs.
pub trait Mutability: Sized + Copy {
    /// Type-level mode bit: `true` for the shared mode, `false` for the
    /// exclusive mode.
    spec fn spec_is_shared() -> bool;

    /// Produce the token value of this mode.
    fn token() -> (m: Self);

    /// The mode bit as a runtime value, pinned to the type-level bit.
    fn is_shared(&self) -> (r: bool)
        ensures
            r == Self::spec_is_shared(),
    ;
}

/// Mode token for read-only access: handles may be freely duplicated, and
/// every operation leaves the accessed value unchanged.
#[derive(Clone, Copy, Debug)]
pub struct Shared;

/// Mode token for read-write access: handles cannot be duplicated, and
/// write operations are permitted.
#[derive(Clone, Copy, Debug)]
pub struct Exclusive;

impl Mutability for Shared {
    open spec fn spec_is_shared() -> bool {
        true
    }

    fn token() -> (m: Self) {
        Shared
    }

    fn is_shared(&self) -> (r: bool) {
        true
    }
}

impl Mutability for Exclusive {
    open spec fn spec_is_shared() -> bool {
        false
    }

    fn token() -> (m: Self) {
        Exclusive
    }

    fn is_shared(&self) -> (r: bool) {
        false
    }
}

} // verus!
