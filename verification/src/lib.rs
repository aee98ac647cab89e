//! A mode-parameterized access abstraction: one body of logic serves both
//! read-only and read-write access to a value, with the access mode chosen
//! at the type level by a two-inhabitant marker and enforced by verification
//! rather than by a runtime check.
//!
//! The pieces, leaves first:
//! * [`mode`] — the `Mutability` marker trait and its two tokens, `Shared`
//!   and `Exclusive`;
//! * [`genref`] — `GenRef<M, T>`, a move-only handle to a value whose
//!   permitted operations depend on the mode `M`;
//! * [`index`] and [`opt`] — projection adapters from a handle to a part of
//!   the value it holds;
//! * [`slice`] — `IterGen<M, T>`, a double-ended, exact-length, fused
//!   producer of mode-parameterized element handles, stored as a two-arm
//!   cursor whose active arm is pinned to `M` by a proved invariant;
//! * [`laws`] — the sequence-level laws that the iterator contracts rest on.

pub mod genref;
pub mod index;
pub mod laws;
pub mod mode;
pub mod opt;
pub mod slice;
