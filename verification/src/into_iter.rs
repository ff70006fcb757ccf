//! The consuming iterator: it takes a container's storage over and hands
//! the elements out by value.

use vstd::prelude::*;
use crate::raw_val_iter::RawValIter;
use crate::raw_vec::RawVec;

verus! {

/// An iterator that owns the storage of the container it was made from. The
/// elements not yet handed out sit in the slots of its cursor's range and
/// are dropped together with the iterator.
pub struct IntoIter<T> {
    buf: RawVec<T>,
    iter: RawValIter,
}

impl<T> View for IntoIter<T> {
    type V = Seq<T>;

    /// The elements still to come, front to back.
    open spec fn view(&self) -> Seq<T> {
        self.cursor().remaining(self.storage()@)
    }
}

impl<T> IntoIter<T> {
    /// The storage that the iterator owns.
    pub closed spec fn storage(&self) -> RawVec<T> {
        self.buf
    }

    /// The cursor over the elements still to come.
    pub closed spec fn cursor(&self) -> RawValIter {
        self.iter
    }

    /// The iterator's invariant: the slots of the cursor's range hold the
    /// elements still to come, and every other slot is empty.
    pub open spec fn wf(&self) -> bool {
        &&& self.storage().wf()
        &&& self.cursor().owns(self.storage()@)
    }

    /// An iterator over the elements that `iter` covers in `buf`.
    pub(crate) fn from_parts(buf: RawVec<T>, iter: RawValIter) -> (it: Self)
        requires
            buf.wf(),
            iter.owns(buf@),
        ensures
            it.wf(),
            it.storage() == buf,
            it.cursor() == iter,
    {
        IntoIter { buf, iter }
    }

    /// The next element from the front, or `None` when none is left.
    pub fn next(&mut self) -> (value: Option<T>)
        requires
            old(self).wf(),
        ensures
            final(self).wf(),
            old(self)@.len() == 0 ==> value is None && final(self)@ == old(self)@,
            old(self)@.len() > 0 ==> value == Some(old(self)@.first()) && final(self)@ == old(
                self,
            )@.drop_first(),
    {
        self.iter.next(&mut self.buf)
    }

    /// The next element from the back, or `None` when none is left.
    pub fn next_back(&mut self) -> (value: Option<T>)
        requires
            old(self).wf(),
        ensures
            final(self).wf(),
            old(self)@.len() == 0 ==> value is None && final(self)@ == old(self)@,
            old(self)@.len() > 0 ==> value == Some(old(self)@.last()) && final(self)@ == old(
                self,
            )@.drop_last(),
    {
        self.iter.next_back(&mut self.buf)
    }

    /// The number of elements still to come, as a lower and an upper bound;
    /// both are exact.
    pub fn size_hint(&self) -> (hint: (usize, Option<usize>))
        requires
            self.wf(),
        ensures
            hint.0 == self@.len(),
            hint.1 == Some(hint.0),
    {
        self.iter.size_hint()
    }
}

} // verus!
