//! The draining iterator: it empties a container and hands the elements out
//! by value, while the container keeps its storage for reuse.

use vstd::prelude::*;
use core::marker::PhantomData;
use crate::raw_val_iter::RawValIter;
use crate::raw_vec::RawVec;
use crate::vector::Vector;

verus! {

/// An iterator over the elements that a container held when it was drained.
/// The container is empty from that moment on and stays borrowed while the
/// iterator lives. The elements not yet handed out are dropped together
/// with the iterator.
pub struct Drain<'a, T: 'a> {
    vec: PhantomData<&'a mut Vector<T>>,
    buf: RawVec<T>,
    iter: RawValIter,
}

impl<'a, T: 'a> View for Drain<'a, T> {
    type V = Seq<T>;

    /// The elements still to come, front to back.
    open spec fn view(&self) -> Seq<T> {
        self.cursor().remaining(self.run()@)
    }
}

impl<'a, T: 'a> Drain<'a, T> {
    /// The slots that hold the drained elements.
    pub closed spec fn run(&self) -> RawVec<T> {
        self.buf
    }

    /// The cursor over the elements still to come.
    pub closed spec fn cursor(&self) -> RawValIter {
        self.iter
    }

    /// The iterator's invariant: the slots of the cursor's range hold the
    /// elements still to come, and every other slot is empty.
    pub open spec fn wf(&self) -> bool {
        &&& self.run().wf()
        &&& self.cursor().owns(self.run()@)
    }

    /// An iterator over the elements that `iter` covers in `buf`.
    pub(crate) fn from_parts(buf: RawVec<T>, iter: RawValIter) -> (d: Self)
        requires
            buf.wf(),
            iter.owns(buf@),
        ensures
            d.wf(),
            d.run() == buf,
            d.cursor() == iter,
    {
        Drain { vec: PhantomData, buf, iter }
    }

    /// The next element from the front, or `None` when none is left.
    pub fn next(&mut self) -> (value: Option<T>)
        requires
            old(self).wf(),
        ensures
            final(self).wf(),
            old(self)@.len() == 0 ==> value is None && final(self)@ == old(self)@,
            old(self)@.len() > 0 ==> value == Some(old(self)@.first()) && final(self)@ == old(
                self,
            )@.drop_first(),
    {
        self.iter.next(&mut self.buf)
    }

    /// The next element from the back, or `None` when none is left.
    pub fn next_back(&mut self) -> (value: Option<T>)
        requires
            old(self).wf(),
        ensures
            final(self).wf(),
            old(self)@.len() == 0 ==> value is None && final(self)@ == old(self)@,
            old(self)@.len() > 0 ==> value == Some(old(self)@.last()) && final(self)@ == old(
                self,
            )@.drop_last(),
    {
        self.iter.next_back(&mut self.buf)
    }

    /// The number of elements still to come, as a lower and an upper bound;
    /// both are exact.
    pub fn size_hint(&self) -> (hint: (usize, Option<usize>))
        requires
            self.wf(),
        ensures
            hint.0 == self@.len(),
            hint.1 == Some(hint.0),
    {
        self.iter.size_hint()
    }
}

} // verus!
