//! The raw storage: a run of slots for elements of one type.

use vstd::prelude::*;
use vstd::layout::size_of;
use crate::growth::{capacity_after_growths, fits, grown_capacity};

verus! {

/// A storage of `capacity` slots. A slot is either empty or holds one
/// element; the storage keeps no count of the slots in use and never looks
/// at what a slot holds unless asked to.
pub struct RawVec<T> {
    slots: Vec<Option<T>>,
    capacity: usize,
    growths: Ghost<nat>,
}

impl<T> View for RawVec<T> {
    type V = Seq<Option<T>>;

    /// The slots in order: `None` for an empty one.
    closed spec fn view(&self) -> Seq<Option<T>> {
        self.slots@
    }
}

impl<T> RawVec<T> {
    /// The number of slots, as a specification.
    pub closed spec fn spec_capacity(&self) -> usize {
        self.capacity
    }

    /// How many times this storage has grown.
    pub closed spec fn growths(&self) -> nat {
        self.growths@
    }

    /// The storage's invariant: it has as many slots as its capacity says,
    /// its elements have a size, one slot and all slots together stay under
    /// the byte limit, and the capacity is the one that its growth steps
    /// lead to.
    pub open spec fn wf(&self) -> bool {
        &&& self@.len() == self.capacity()
        &&& size_of::<T>() != 0
        &&& fits::<T>(1)
        &&& fits::<T>(self.capacity() as nat)
        &&& self.capacity() == capacity_after_growths(self.growths())
    }

    /// A storage without any slot. Nothing is allocated.
    ///
    /// Elements without a size cannot be counted in slots, so the element
    /// type must have one.
    pub fn new() -> (buf: Self)
        requires
            size_of::<T>() != 0,
        ensures
            buf.wf(),
            buf.capacity() == 0,
            buf.growths() == 0,
            buf@ == Seq::<Option<T>>::empty(),
    {
        vstd::layout::layout_for_type_is_valid::<T>();
        RawVec { slots: Vec::new(), capacity: 0usize, growths: Ghost(0) }
    }

    /// The number of slots.
    #[verifier::when_used_as_spec(spec_capacity)]
    pub fn capacity(&self) -> (cap: usize)
        ensures
            cap == self.capacity(),
    {
        self.capacity
    }

    /// Whether the storage can grow by one step: the grown storage must
    /// stay under the byte limit.
    pub open spec fn spec_can_grow(&self) -> bool {
        fits::<T>(grown_capacity(self.capacity() as nat))
    }

    /// Whether the storage can grow by one step: computes the size in bytes
    /// of the grown storage and holds it against the byte limit.
    #[verifier::when_used_as_spec(spec_can_grow)]
    pub fn can_grow(&self) -> (ok: bool)
        requires
            self.wf(),
        ensures
            ok == self.can_grow(),
    {
        proof {
            let cap = self.capacity as int;
            let size = size_of::<T>() as int;
            assert(cap <= cap * size) by (nonlinear_arith)
                requires
                    size >= 1,
                    cap >= 0,
            ;
        }
        let new_cap: usize = if self.capacity == 0 {
            1
        } else {
            2 * self.capacity
        };
        match new_cap.checked_mul(core::mem::size_of::<T>()) {
            Some(bytes) => bytes <= isize::MAX as usize,
            None => false,
        }
    }

    /// Grows the storage by one step: to one slot from none, to twice as
    /// many otherwise. The slots that were there keep what they hold; the new
    /// ones are empty.
    pub fn grow(&mut self)
        requires
            old(self).wf(),
            old(self).can_grow(),
        ensures
            final(self).wf(),
            final(self).capacity() == grown_capacity(old(self).capacity() as nat),
            final(self).growths() == old(self).growths() + 1,
            final(self)@ == old(self)@ + Seq::new(
                (final(self).capacity() - old(self).capacity()) as nat,
                |i: int| None::<T>,
            ),
    {
        proof {
            let cap = self.capacity as int;
            let size = size_of::<T>() as int;
            assert(2 * cap <= grown_capacity(cap as nat) * size) by (nonlinear_arith)
                requires
                    size >= 1,
                    cap >= 0,
                    grown_capacity(cap as nat) >= 2 * cap,
            ;
        }
        let new_cap: usize = if self.capacity == 0 {
            1
        } else {
            2 * self.capacity
        };
        self.slots.reserve(new_cap - self.capacity);
        while self.slots.len() < new_cap
            invariant
                old(self).wf(),
                self.capacity == old(self).capacity,
                self.growths == old(self).growths,
                old(self).capacity() <= self.slots@.len() <= new_cap,
                self.slots@ == old(self).slots@ + Seq::new(
                    (self.slots@.len() - old(self).capacity()) as nat,
                    |i: int| None::<T>,
                ),
            decreases new_cap - self.slots@.len(),
        {
            self.slots.push(None);
            assert(self.slots@ =~= old(self).slots@ + Seq::new(
                (self.slots@.len() - old(self).capacity()) as nat,
                |i: int| None::<T>,
            ));
        }
        self.capacity = new_cap;
        self.growths = Ghost(self.growths@ + 1);
    }

    /// Puts `value` into slot `index`. An element that the slot held before
    /// is dropped.
    pub fn write(&mut self, index: usize, value: T)
        requires
            old(self).wf(),
            index < old(self).capacity(),
        ensures
            final(self).wf(),
            final(self).capacity() == old(self).capacity(),
            final(self).growths() == old(self).growths(),
            final(self)@ == old(self)@.update(index as int, Some(value)),
    {
        self.slots[index] = Some(value);
    }

    /// Moves the element out of slot `index`, which is empty afterwards.
    pub fn read(&mut self, index: usize) -> (value: T)
        requires
            old(self).wf(),
            index < old(self).capacity(),
            old(self)@[index as int] is Some,
        ensures
            final(self).wf(),
            final(self).capacity() == old(self).capacity(),
            final(self).growths() == old(self).growths(),
            Some(value) == old(self)@[index as int],
            final(self)@ == old(self)@.update(index as int, None),
    {
        self.slots[index].take().unwrap()
    }

    /// The element in slot `index`, which stays where it is.
    pub fn get(&self, index: usize) -> (value: &T)
        requires
            self.wf(),
            index < self.capacity(),
            self@[index as int] is Some,
        ensures
            Some(*value) == self@[index as int],
    {
        self.slots[index].as_ref().unwrap()
    }

    /// The element in slot `index`, to be changed in place.
    pub fn get_mut(&mut self, index: usize) -> (value: &mut T)
        requires
            old(self).wf(),
            index < old(self).capacity(),
            old(self)@[index as int] is Some,
        ensures
            Some(*value) == old(self)@[index as int],
            final(self).wf(),
            final(self).capacity() == old(self).capacity(),
            final(self).growths() == old(self).growths(),
            final(self)@ == old(self)@.update(index as int, Some(*final(value))),
    {
        self.slots[index].as_mut().unwrap()
    }

    /// Moves the `count` slots from `src` on to the slots from `dst` on.
    /// The two runs may overlap. A slot of the source run that the
    /// destination run does not cover is empty afterwards; an element in a
    /// slot of the destination run that the source run does not cover is
    /// dropped.
    pub fn copy(&mut self, src: usize, dst: usize, count: usize)
        requires
            old(self).wf(),
            src + count <= old(self).capacity(),
            dst + count <= old(self).capacity(),
        ensures
            final(self).wf(),
            final(self).capacity() == old(self).capacity(),
            final(self).growths() == old(self).growths(),
            final(self)@ == moved(old(self)@, src as int, dst as int, count as int),
    {
        if dst > src {
            let mut left: usize = count;
            while left > 0
                invariant
                    old(self).wf(),
                    self.capacity == old(self).capacity,
                    self.growths == old(self).growths,
                    src < dst,
                    left <= count,
                    src + count <= old(self).capacity(),
                    dst + count <= old(self).capacity(),
                    self.slots@ == moved_from(old(self)@, src as int, dst as int, count as int, left as int),
                decreases left,
            {
                left = left - 1;
                let slot = self.slots[src + left].take();
                self.slots[dst + left] = slot;
                assert(self.slots@ =~= moved_from(
                    old(self)@,
                    src as int,
                    dst as int,
                    count as int,
                    left as int,
                ));
            }
            assert(self.slots@ =~= moved(old(self)@, src as int, dst as int, count as int));
        } else if dst < src {
            let mut done: usize = 0;
            while done < count
                invariant
                    old(self).wf(),
                    self.capacity == old(self).capacity,
                    self.growths == old(self).growths,
                    dst < src,
                    done <= count,
                    src + count <= old(self).capacity(),
                    dst + count <= old(self).capacity(),
                    self.slots@ == moved_upto(old(self)@, src as int, dst as int, count as int, done as int),
                decreases count - done,
            {
                let slot = self.slots[src + done].take();
                self.slots[dst + done] = slot;
                done = done + 1;
                assert(self.slots@ =~= moved_upto(
                    old(self)@,
                    src as int,
                    dst as int,
                    count as int,
                    done as int,
                ));
            }
            assert(self.slots@ =~= moved(old(self)@, src as int, dst as int, count as int));
        } else {
            assert(self.slots@ =~= moved(old(self)@, src as int, dst as int, count as int));
        }
    }
}

/// The slots after the run of `count` slots at `src` has moved to `dst`: a
/// slot of the destination run holds what the matching source slot held, a
/// source slot outside the destination run is empty, and every other slot is
/// as it was.
pub open spec fn moved<T>(slots: Seq<Option<T>>, src: int, dst: int, count: int) -> Seq<
    Option<T>,
> {
    Seq::new(
        slots.len(),
        |p: int|
            if dst <= p < dst + count {
                slots[p - dst + src]
            } else if src <= p < src + count {
                None
            } else {
                slots[p]
            },
    )
}

/// The slots on the way of a move to a higher position, which starts at the
/// top: the slots from offset `left` on have moved.
spec fn moved_from<T>(slots: Seq<Option<T>>, src: int, dst: int, count: int, left: int) -> Seq<
    Option<T>,
> {
    Seq::new(
        slots.len(),
        |p: int|
            if dst + left <= p < dst + count {
                slots[p - dst + src]
            } else if src + left <= p < src + count {
                None
            } else {
                slots[p]
            },
    )
}

/// The slots on the way of a move to a lower position, which starts at the
/// bottom: the slots below offset `done` have moved.
spec fn moved_upto<T>(slots: Seq<Option<T>>, src: int, dst: int, count: int, done: int) -> Seq<
    Option<T>,
> {
    Seq::new(
        slots.len(),
        |p: int|
            if dst <= p < dst + done {
                slots[p - dst + src]
            } else if src <= p < src + done {
                None
            } else {
                slots[p]
            },
    )
}

} // verus!
