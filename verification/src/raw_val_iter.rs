//! The cursor: two bounds over a run of slots, walked from either end.

use vstd::prelude::*;
use crate::raw_vec::RawVec;

verus! {

/// A cursor over the slots from `start` up to, not including, `end` of some
/// storage: the slots whose elements have not been handed out yet. It holds
/// positions only; the storage is lent to it for each step.
pub struct RawValIter {
    start: usize,
    end: usize,
}

impl RawValIter {
    /// The position of the next element from the front.
    pub closed spec fn start(&self) -> int {
        self.start as int
    }

    /// The position one past the next element from the back.
    pub closed spec fn end(&self) -> int {
        self.end as int
    }

    /// The cursor lies inside `slots`, and every slot of its range holds an
    /// element.
    pub open spec fn covers<T>(&self, slots: Seq<Option<T>>) -> bool {
        &&& 0 <= self.start() <= self.end() <= slots.len()
        &&& forall|p: int| self.start() <= p < self.end() ==> (#[trigger] slots[p]) is Some
    }

    /// The cursor covers its range of `slots`, and no slot outside that
    /// range holds an element.
    pub open spec fn owns<T>(&self, slots: Seq<Option<T>>) -> bool {
        &&& self.covers(slots)
        &&& forall|p: int|
            0 <= p < slots.len() && !(self.start() <= p < self.end()) ==> (#[trigger] slots[p])
                is None
    }

    /// The elements still to come, front to back.
    pub open spec fn remaining<T>(&self, slots: Seq<Option<T>>) -> Seq<T> {
        Seq::new((self.end() - self.start()) as nat, |i: int| slots[self.start() + i]->0)
    }

    /// A cursor over the `count` slots from `first` on.
    pub fn new(first: usize, count: usize) -> (iter: Self)
        requires
            first + count <= usize::MAX,
        ensures
            iter.start() == first,
            iter.end() == first + count,
    {
        RawValIter { start: first, end: first + count }
    }

    /// Hands out the element at the front of the range and moves the front
    /// one slot on; `None`, and nothing changes, when the range is empty.
    pub fn next<T>(&mut self, buf: &mut RawVec<T>) -> (value: Option<T>)
        requires
            old(buf).wf(),
            old(self).covers(old(buf)@),
        ensures
            final(buf).wf(),
            final(buf).capacity() == old(buf).capacity(),
            final(buf).growths() == old(buf).growths(),
            final(self).covers(final(buf)@),
            final(self).end() == old(self).end(),
            old(self).start() == old(self).end() ==> {
                &&& value is None
                &&& final(self).start() == old(self).start()
                &&& final(buf)@ == old(buf)@
            },
            old(self).start() < old(self).end() ==> {
                &&& value == old(buf)@[old(self).start()]
                &&& value == Some(old(self).remaining(old(buf)@).first())
                &&& final(self).start() == old(self).start() + 1
                &&& final(buf)@ == old(buf)@.update(old(self).start(), None)
                &&& final(self).remaining(final(buf)@) == old(self).remaining(old(buf)@).drop_first()
            },
    {
        if self.start == self.end {
            None
        } else {
            let value = buf.read(self.start);
            self.start = self.start + 1;
            assert(self.remaining(buf@) =~= old(self).remaining(old(buf)@).drop_first());
            Some(value)
        }
    }

    /// Hands out the element at the back of the range and moves the back one
    /// slot down; `None`, and nothing changes, when the range is empty.
    pub fn next_back<T>(&mut self, buf: &mut RawVec<T>) -> (value: Option<T>)
        requires
            old(buf).wf(),
            old(self).covers(old(buf)@),
        ensures
            final(buf).wf(),
            final(buf).capacity() == old(buf).capacity(),
            final(buf).growths() == old(buf).growths(),
            final(self).covers(final(buf)@),
            final(self).start() == old(self).start(),
            old(self).start() == old(self).end() ==> {
                &&& value is None
                &&& final(self).end() == old(self).end()
                &&& final(buf)@ == old(buf)@
            },
            old(self).start() < old(self).end() ==> {
                &&& value == old(buf)@[old(self).end() - 1]
                &&& value == Some(old(self).remaining(old(buf)@).last())
                &&& final(self).end() == old(self).end() - 1
                &&& final(buf)@ == old(buf)@.update(old(self).end() - 1, None)
                &&& final(self).remaining(final(buf)@) == old(self).remaining(old(buf)@).drop_last()
            },
    {
        if self.start == self.end {
            None
        } else {
            self.end = self.end - 1;
            let value = buf.read(self.end);
            assert(self.remaining(buf@) =~= old(self).remaining(old(buf)@).drop_last());
            Some(value)
        }
    }

    /// The number of elements still to come, as a lower and an upper bound;
    /// both are exact.
    pub fn size_hint(&self) -> (hint: (usize, Option<usize>))
        requires
            self.start() <= self.end(),
        ensures
            hint.0 == self.end() - self.start(),
            hint.1 == Some(hint.0),
    {
        let len: usize = self.end - self.start;
        (len, Some(len))
    }
}

} // verus!
