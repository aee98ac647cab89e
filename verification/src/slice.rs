use crate::genref::GenRef;
use crate::mode::Mutability;
use vstd::prelude::*;
use vstd::slice::slice_subrange;

verus! {

/// One cursor layout serving both iteration kinds: the elements and the
/// half-open range `[front, back)` of those not yet produced. The two
/// cursor kinds of [`IterGenInner`] are structurally identical, so they
/// share this layout, as the two arms of the inner storage share one slot.
#[derive(Debug)]
struct SliceCursor<T> {
    elems: Vec<T>,
    front: usize,
    back: usize,
}

impl<T> SliceCursor<T> {
    /// The cursor's range is within the elements.
    spec fn wf(&self) -> bool {
        self.front <= self.back <= self.elems@.len()
    }

    /// The elements not yet produced, front to back.
    spec fn remaining(&self) -> Seq<T> {
        self.elems@.subrange(self.front as int, self.back as int)
    }

    /// Exact count of elements not yet produced.
    fn len(&self) -> (n: usize)
        requires
            self.wf(),
        ensures
            n == self.remaining().len(),
    {
        self.back - self.front
    }

    /// Produce the front element and advance the front boundary inward;
    /// `None` once the boundaries have met, leaving the cursor unchanged.
    fn pop_front(&mut self) -> (r: Option<T>) where T: Copy
        requires
            old(self).wf(),
        ensures
            final(self).wf(),
            old(self).remaining().len() == 0 ==> r is None && *final(self) == *old(self),
            old(self).remaining().len() > 0 ==> r == Some(old(self).remaining()[0])
                && final(self).remaining() == old(self).remaining().skip(1),
    {
        if self.front == self.back {
            None
        } else {
            let x: T = self.elems[self.front];
            self.front = self.front + 1;
            proof {
                assert(self.remaining() =~= old(self).remaining().skip(1));
            }
            Some(x)
        }
    }

    /// Produce the back element and advance the back boundary inward;
    /// `None` once the boundaries have met, leaving the cursor unchanged.
    fn pop_back(&mut self) -> (r: Option<T>) where T: Copy
        requires
            old(self).wf(),
        ensures
            final(self).wf(),
            old(self).remaining().len() == 0 ==> r is None && *final(self) == *old(self),
            old(self).remaining().len() > 0 ==> r == Some(old(self).remaining().last())
                && final(self).remaining() == old(self).remaining().drop_last(),
    {
        if self.front == self.back {
            None
        } else {
            let x: T = self.elems[self.back - 1];
            self.back = self.back - 1;
            proof {
                assert(self.remaining() =~= old(self).remaining().drop_last());
            }
            Some(x)
        }
    }

    /// Read-only view of the remaining elements, without advancing.
    fn as_slice(&self) -> (s: &[T])
        requires
            self.wf(),
        ensures
            s@ == self.remaining(),
    {
        slice_subrange(self.elems.as_slice(), self.front, self.back)
    }

    /// Surrender the cursor and keep exactly the remaining elements.
    fn into_remaining(self) -> (v: Vec<T>)
        requires
            self.wf(),
        ensures
            v@ == self.remaining(),
    {
        let mut elems: Vec<T> = self.elems;
        elems.truncate(self.back);
        let tail: Vec<T> = elems.split_off(self.front);
        tail
    }
}

/// The two cursor kinds, one per access mode. The arm in use is decided
/// once, at construction, from the mode parameter of the owning
/// [`IterGen`], and [`IterGen::wf`] pins it there: no operation ever reads
/// the arm belonging to the other mode. This is a closed two-variant sum
/// standing where a host with unchecked storage overlap would put a union;
/// the mode-to-arm invariant is the fact that makes such an overlap sound,
/// and here it is stated and proved rather than assumed.
#[derive(Debug)]
enum IterGenInner<T> {
    SharedIter(SliceCursor<T>),
    ExclusiveIter(SliceCursor<T>),
}

impl<T> IterGenInner<T> {
    /// The cursor held by whichever arm is present.
    spec fn cursor(&self) -> SliceCursor<T> {
        match *self {
            IterGenInner::SharedIter(c) => c,
            IterGenInner::ExclusiveIter(c) => c,
        }
    }
}

/// A mode-parameterized producer of the elements of a sequence.
///
/// Created from a `GenRef<M, Vec<T>>`, it hands the elements out one at a
/// time as `GenRef<M, T>` handles, from the front ([`IterGen::next`]) or
/// from the back ([`IterGen::next_back`]), reports the exact remaining
/// count in constant time ([`IterGen::len`]), and is fused: once it has
/// produced `None` it produces `None` forever. A read-only peek at the
/// remaining elements ([`IterGen::as_slice`]) is permitted under either
/// mode; the only way to regain a handle to the remaining elements is
/// [`IterGen::into_slice`], which consumes the iterator, so a recovered
/// view and a live cursor never coexist.
#[derive(Debug)]
pub struct IterGen<M: Mutability, T> {
    mode: M,
    iter: IterGenInner<T>,
}

impl<M: Mutability, T> View for IterGen<M, T> {
    type V = Seq<T>;

    /// An iterator's view is the sequence of elements it has yet to produce.
    closed spec fn view(&self) -> Seq<T> {
        self.iter.cursor().remaining()
    }
}

impl<M: Mutability, T> IterGen<M, T> {
    /// Representation coherence: the arm of the inner storage is the one
    /// selected by the mode parameter — the shared-iteration arm exactly
    /// under the shared mode — and the cursor's range is within its
    /// elements. Every constructor establishes this and every operation
    /// preserves it.
    pub closed spec fn wf(&self) -> bool {
        &&& (M::spec_is_shared() <==> self.iter is SharedIter)
        &&& self.iter.cursor().wf()
    }

    /// Read access to the cursor, guarded by the mode: the arm read is the
    /// one the mode selects, and the coherence invariant proves the other
    /// arm absent. This mode-guarded selection, not a runtime inspection of
    /// the storage, is what decides every read of the inner arm.
    fn cursor_ref(&self) -> (c: &SliceCursor<T>)
        requires
            self.wf(),
        ensures
            *c == self.iter.cursor(),
            c.wf(),
    {
        if self.mode.is_shared() {
            match &self.iter {
                IterGenInner::SharedIter(c) => c,
                IterGenInner::ExclusiveIter(_) => vstd::pervasive::unreached(),
            }
        } else {
            match &self.iter {
                IterGenInner::ExclusiveIter(c) => c,
                IterGenInner::SharedIter(_) => vstd::pervasive::unreached(),
            }
        }
    }

    /// Write access to the cursor, guarded by the mode exactly as
    /// [`IterGen::cursor_ref`] is; the arm itself never changes, only the
    /// cursor inside it, so the coherence invariant survives every advance.
    fn cursor_mut(&mut self) -> (c: &mut SliceCursor<T>)
        requires
            old(self).wf(),
        ensures
            *c == old(self).iter.cursor(),
            c.wf(),
            final(self).iter.cursor() == *final(c),
            (final(self).iter is SharedIter) == (old(self).iter is SharedIter),
    {
        if self.mode.is_shared() {
            match &mut self.iter {
                IterGenInner::SharedIter(c) => c,
                IterGenInner::ExclusiveIter(_) => vstd::pervasive::unreached(),
            }
        } else {
            match &mut self.iter {
                IterGenInner::ExclusiveIter(c) => c,
                IterGenInner::SharedIter(_) => vstd::pervasive::unreached(),
            }
        }
    }

    /// Start iteration over the elements of `source`, in the same mode.
    /// The arm written is chosen by the mode token, so the coherence
    /// invariant holds from birth.
    pub(crate) fn new(source: GenRef<M, Vec<T>>) -> (it: IterGen<M, T>)
        ensures
            it.wf(),
            it@ == source@@,
    {
        let mode: M = source.mode();
        let elems: Vec<T> = source.into_inner();
        let back: usize = elems.len();
        let cursor = SliceCursor { elems, front: 0, back };
        proof {
            assert(cursor.remaining() =~= cursor.elems@);
        }
        let iter: IterGenInner<T> = if mode.is_shared() {
            IterGenInner::SharedIter(cursor)
        } else {
            IterGenInner::ExclusiveIter(cursor)
        };
        IterGen { mode, iter }
    }

    /// Exact remaining count.
    pub fn len(&self) -> (n: usize)
        requires
            self.wf(),
        ensures
            n == self@.len(),
    {
        self.cursor_ref().len()
    }

    /// Produce the front element as a handle of the same mode, or `None`
    /// once no element remains — and then `None` on every later call too,
    /// since an empty iterator is left unchanged.
    pub fn next(&mut self) -> (r: Option<GenRef<M, T>>) where T: Copy
        requires
            old(self).wf(),
        ensures
            final(self).wf(),
            old(self)@.len() == 0 ==> r is None && final(self)@ == old(self)@,
            old(self)@.len() > 0 ==> r is Some && r.unwrap()@ == old(self)@[0]
                && final(self)@ == old(self)@.skip(1),
    {
        let mode: M = self.mode;
        let popped: Option<T> = self.cursor_mut().pop_front();
        match popped {
            Some(x) => Some(GenRef::new(mode, x)),
            None => None,
        }
    }

    /// Produce the back element as a handle of the same mode, or `None`
    /// once no element remains — fused, like [`IterGen::next`]. Front and
    /// back production advance opposite boundaries of one range, so no
    /// element is ever produced twice.
    pub fn next_back(&mut self) -> (r: Option<GenRef<M, T>>) where T: Copy
        requires
            old(self).wf(),
        ensures
            final(self).wf(),
            old(self)@.len() == 0 ==> r is None && final(self)@ == old(self)@,
            old(self)@.len() > 0 ==> r is Some && r.unwrap()@ == old(self)@.last()
                && final(self)@ == old(self)@.drop_last(),
    {
        let mode: M = self.mode;
        let popped: Option<T> = self.cursor_mut().pop_back();
        match popped {
            Some(x) => Some(GenRef::new(mode, x)),
            None => None,
        }
    }

    /// Read-only peek at the remaining elements. Permitted under either
    /// mode — a read-only view breaks no exclusivity — and the iterator is
    /// untouched, so two peeks in a row see the same content.
    pub fn as_slice(&self) -> (s: &[T])
        requires
            self.wf(),
        ensures
            s@ == self@,
    {
        self.cursor_ref().as_slice()
    }

    /// Surrender the iterator for a handle, of the same mode, to exactly
    /// the elements it had yet to produce. Consuming the iterator is what
    /// keeps its cursor and the recovered view from coexisting, which under
    /// the exclusive mode would be two live views of the same data.
    pub fn into_slice(self) -> (r: GenRef<M, Vec<T>>)
        requires
            self.wf(),
        ensures
            r@@ == self@,
    {
        let IterGen { mode, iter } = self;
        let cursor: SliceCursor<T> = if mode.is_shared() {
            match iter {
                IterGenInner::SharedIter(c) => c,
                IterGenInner::ExclusiveIter(_) => vstd::pervasive::unreached(),
            }
        } else {
            match iter {
                IterGenInner::ExclusiveIter(c) => c,
                IterGenInner::SharedIter(_) => vstd::pervasive::unreached(),
            }
        };
        GenRef::new(mode, cursor.into_remaining())
    }
}

impl<M: Mutability, T> Default for IterGen<M, T> {
    /// An iterator born exhausted: zero remaining elements and no
    /// productions, usable as a neutral placeholder value.
    fn default() -> (it: Self)
        ensures
            it.wf(),
            it@ == Seq::<T>::empty(),
    {
        IterGen::new(GenRef::new(M::token(), Vec::new()))
    }
}

/// Mode-generic entry point to iteration: any handle to a vector of
/// elements can begin producing them, in its own mode.
pub trait SliceExt<M: Mutability, T>: Sized {
    /// The sequence of elements the implementor gives access to.
    spec fn slice_contents(&self) -> Seq<T>;

    /// Begin iteration over those elements, same mode.
    fn iter_gen(self) -> (it: IterGen<M, T>)
        ensures
            it.wf(),
            it@ == self.slice_contents(),
    ;
}

impl<M: Mutability, T> SliceExt<M, T> for GenRef<M, Vec<T>> {
    open spec fn slice_contents(&self) -> Seq<T> {
        self@@
    }

    fn iter_gen(self) -> (it: IterGen<M, T>) {
        IterGen::new(self)
    }
}

} // verus!
