//! The container: a storage and the number of its leading slots in use.

use vstd::prelude::*;
use crate::drain::Drain;
use crate::growth::{
    capacity_after_push, growths_of_push, grown_capacity, lemma_growth_stays_below,
};
use crate::into_iter::IntoIter;
use crate::raw_val_iter::RawValIter;
use crate::raw_vec::RawVec;

verus! {

/// A growable array. Its elements sit in the first `len` slots of its
/// storage, in order; every slot after them is empty.
pub struct Vector<T> {
    buf: RawVec<T>,
    len: usize,
}

impl<T> View for Vector<T> {
    type V = Seq<T>;

    /// The elements in order.
    closed spec fn view(&self) -> Seq<T> {
        Seq::new(self.len as nat, |i: int| self.buf@[i]->0)
    }
}

impl<T> Vector<T> {
    /// The storage behind the container.
    pub closed spec fn storage(&self) -> RawVec<T> {
        self.buf
    }

    /// The number of elements, as a specification.
    pub closed spec fn spec_len(&self) -> usize {
        self.len
    }

    /// The number of slots, as a specification.
    pub open spec fn spec_capacity(&self) -> usize {
        self.storage().capacity()
    }

    /// How many times the storage has grown.
    pub open spec fn growths(&self) -> nat {
        self.storage().growths()
    }

    /// The container's invariant: the length does not exceed the capacity,
    /// the first `len` slots hold the elements, and the others are empty.
    pub open spec fn wf(&self) -> bool {
        &&& self.storage().wf()
        &&& self.len() <= self.capacity()
        &&& self@.len() == self.len()
        &&& forall|p: int|
            0 <= p < self.capacity() ==> #[trigger] self.storage()@[p] == if p < self.len() {
                Some(self@[p])
            } else {
                None
            }
    }

    /// Whether one more element can be taken in: there is an empty slot, or
    /// the storage can grow without passing the byte limit.
    pub open spec fn spec_can_take_one(&self) -> bool {
        self.len() == self.capacity() ==> self.storage().can_grow()
    }

    /// An empty container. Nothing is allocated.
    pub fn new() -> (v: Self)
        requires
            vstd::layout::size_of::<T>() != 0,
        ensures
            v.wf(),
            v@ == Seq::<T>::empty(),
            v.capacity() == 0,
            v.growths() == 0,
            v.can_take_one(),
    {
        let v = Vector { buf: RawVec::new(), len: 0 };
        assert(v@ =~= Seq::<T>::empty());
        v
    }

    /// The number of elements.
    #[verifier::when_used_as_spec(spec_len)]
    pub fn len(&self) -> (len: usize)
        ensures
            len == self.len(),
    {
        self.len
    }

    /// The number of slots.
    #[verifier::when_used_as_spec(spec_capacity)]
    pub fn capacity(&self) -> (cap: usize)
        ensures
            cap == self.capacity(),
    {
        self.buf.capacity()
    }

    /// Whether one more element can be taken in: there is an empty slot, or
    /// the storage can grow without passing the byte limit.
    #[verifier::when_used_as_spec(spec_can_take_one)]
    pub fn can_take_one(&self) -> (ok: bool)
        requires
            self.wf(),
        ensures
            ok == self.can_take_one(),
    {
        self.len < self.buf.capacity() || self.buf.can_grow()
    }

    /// The element at `index`.
    pub fn get(&self, index: usize) -> (value: &T)
        requires
            self.wf(),
            index < self.len(),
        ensures
            *value == self@[index as int],
    {
        self.buf.get(index)
    }

    /// The element at `index`, to be changed in place.
    pub fn get_mut(&mut self, index: usize) -> (value: &mut T)
        requires
            old(self).wf(),
            index < old(self).len(),
        ensures
            *value == old(self)@[index as int],
            final(self).wf(),
            final(self).capacity() == old(self).capacity(),
            final(self).growths() == old(self).growths(),
            final(self)@ == old(self)@.update(index as int, *final(value)),
    {
        let ghost after = *final(self);
        let value = self.buf.get_mut(index);
        assert(after@ =~= old(self)@.update(index as int, *final(value)));
        value
    }

    /// Appends `elem`. The storage grows first when it is full.
    pub fn push(&mut self, elem: T)
        requires
            old(self).wf(),
            old(self).can_take_one(),
        ensures
            final(self).wf(),
            final(self)@ == old(self)@.push(elem),
            final(self).capacity() == capacity_after_push(
                old(self).len() as nat,
                old(self).capacity() as nat,
            ),
            final(self).capacity() >= old(self).capacity(),
            final(self).growths() == old(self).growths() + growths_of_push(
                old(self).len() as nat,
                old(self).capacity() as nat,
            ),
    {
        if self.len == self.capacity() {
            self.buf.grow();
        }
        self.buf.write(self.len, elem);
        self.len += 1;
        assert(self@ =~= old(self)@.push(elem));
    }

    /// Takes the last element off, or gives `None` when there is none.
    pub fn pop(&mut self) -> (value: Option<T>)
        requires
            old(self).wf(),
        ensures
            final(self).wf(),
            final(self).capacity() == old(self).capacity(),
            final(self).growths() == old(self).growths(),
            old(self)@.len() == 0 ==> value is None && final(self)@ == old(self)@,
            old(self)@.len() > 0 ==> value == Some(old(self)@.last()) && final(self)@ == old(
                self,
            )@.drop_last(),
    {
        if self.len == 0 {
            None
        } else {
            self.len -= 1;
            let value = self.buf.read(self.len);
            assert(self@ =~= old(self)@.drop_last());
            Some(value)
        }
    }

    /// Puts `elem` at `index` and moves the elements from there on one place
    /// up. An `index` equal to the length appends.
    pub fn insert(&mut self, index: usize, elem: T)
        requires
            old(self).wf(),
            old(self).can_take_one(),
            index <= old(self).len(),
        ensures
            final(self).wf(),
            final(self)@ == old(self)@.insert(index as int, elem),
            final(self).capacity() == capacity_after_push(
                old(self).len() as nat,
                old(self).capacity() as nat,
            ),
            final(self).capacity() >= old(self).capacity(),
            final(self).growths() == old(self).growths() + growths_of_push(
                old(self).len() as nat,
                old(self).capacity() as nat,
            ),
    {
        if self.len == self.capacity() {
            self.buf.grow();
        }
        self.buf.copy(index, index + 1, self.len - index);
        self.buf.write(index, elem);
        self.len += 1;
        assert(self@ =~= old(self)@.insert(index as int, elem));
    }

    /// Takes the element at `index` out and moves the elements after it one
    /// place down.
    pub fn remove(&mut self, index: usize) -> (value: T)
        requires
            old(self).wf(),
            index < old(self).len(),
        ensures
            final(self).wf(),
            final(self).capacity() == old(self).capacity(),
            final(self).growths() == old(self).growths(),
            value == old(self)@[index as int],
            final(self)@ == old(self)@.remove(index as int),
    {
        self.len -= 1;
        let value = self.buf.read(index);
        self.buf.copy(index + 1, index, self.len - index);
        assert(self@ =~= old(self)@.remove(index as int));
        value
    }

    /// Empties the container and gives an iterator over the elements it
    /// held. The elements move to slots of the iterator's own, so the
    /// container is empty at once, whatever becomes of the iterator, and
    /// keeps its storage and capacity.
    pub fn drain(&mut self) -> (d: Drain<'_, T>)
        requires
            old(self).wf(),
        ensures
            final(self).wf(),
            final(self)@ == Seq::<T>::empty(),
            final(self).capacity() == old(self).capacity(),
            final(self).growths() == old(self).growths(),
            final(self).can_take_one(),
            d.wf(),
            d@ == old(self)@,
    {
        let count: usize = self.len;
        let iter = RawValIter::new(0, count);
        let mut run: RawVec<T> = RawVec::new();
        while run.capacity() < count
            invariant
                old(self).wf(),
                *self == *old(self),
                count == self.len,
                run.wf(),
                forall|p: int| 0 <= p < run.capacity() ==> (#[trigger] run@[p]) is None,
            decreases (if run.capacity() < count {
                count - run.capacity()
            } else {
                0
            }),
        {
            proof {
                lemma_growth_stays_below(run.growths(), self.buf.growths());
                let grown = grown_capacity(run.capacity() as nat) as int;
                let cap = self.buf.capacity() as int;
                let size = vstd::layout::size_of::<T>() as int;
                assert(grown * size <= cap * size) by (nonlinear_arith)
                    requires
                        grown <= cap,
                        size >= 0,
                ;
            }
            run.grow();
        }
        let mut moved: usize = 0;
        while moved < count
            invariant
                old(self).wf(),
                self.len == count == old(self).len,
                moved <= count <= run.capacity(),
                self.buf.wf(),
                self.buf.capacity() == old(self).buf.capacity(),
                self.buf.growths() == old(self).buf.growths(),
                run.wf(),
                forall|p: int|
                    0 <= p < self.buf.capacity() ==> #[trigger] self.buf@[p] == if moved <= p
                        < count {
                        old(self).buf@[p]
                    } else {
                        None
                    },
                forall|p: int|
                    0 <= p < run.capacity() ==> #[trigger] run@[p] == if p < moved {
                        old(self).buf@[p]
                    } else {
                        None
                    },
            decreases count - moved,
        {
            let elem = self.buf.read(moved);
            run.write(moved, elem);
            moved = moved + 1;
        }
        self.len = 0;
        assert(self@ =~= Seq::<T>::empty());
        assert(iter.remaining(run@) =~= old(self)@);
        Drain::from_parts(run, iter)
    }

    /// Turns the container into an iterator over its elements, which takes
    /// the storage over.
    pub fn into_iter(self) -> (it: IntoIter<T>)
        requires
            self.wf(),
        ensures
            it.wf(),
            it@ == self@,
            it.storage() == self.storage(),
            it.cursor().start() == 0,
            it.cursor().end() == self.len(),
    {
        let iter = RawValIter::new(0, self.len);
        assert(iter.remaining(self.buf@) =~= self@);
        IntoIter::from_parts(self.buf, iter)
    }
}

} // verus!
