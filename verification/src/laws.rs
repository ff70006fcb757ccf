//! What holds between the container's operations, stated over the
//! sequences that their contracts speak of.

use vstd::prelude::*;
use vstd::arithmetic::power2::pow2;
use crate::growth::{capacity_after_pushes, lemma_capacity_monotone, lemma_growth_doubles};
use crate::vector::Vector;

verus! {

/// The elements still to come after `n` steps from the front of an iterator
/// that had `s` to come.
pub open spec fn after_nexts<T>(s: Seq<T>, n: nat) -> Seq<T>
    decreases n,
{
    if n == 0 || s.len() == 0 {
        s
    } else {
        after_nexts(s.drop_first(), (n - 1) as nat)
    }
}

/// A push and then a pop: the pop gives the pushed element back, and the
/// container holds what it held before the push, as many elements as before.
pub proof fn lemma_push_pop<T>(s: Seq<T>, x: T)
    ensures
        s.push(x).len() > 0,
        s.push(x).last() == x,
        s.push(x).drop_last() == s,
        s.push(x).drop_last().len() == s.len(),
{
    assert(s.push(x).drop_last() =~= s);
}

/// An insert and then a remove at the same place: the remove gives the
/// inserted element back, and the container holds the same elements in the
/// same order as before the insert.
pub proof fn lemma_insert_remove<T>(s: Seq<T>, index: int, x: T)
    requires
        0 <= index <= s.len(),
    ensures
        index < s.insert(index, x).len(),
        s.insert(index, x)[index] == x,
        s.insert(index, x).remove(index) == s,
{
    assert(s.insert(index, x).remove(index) =~= s);
}

/// Steps from the front hand the elements out in order: after `n` of them
/// the first `n` elements are gone, and after as many steps as there were
/// elements none is left.
pub proof fn lemma_nexts_exhaust<T>(s: Seq<T>, n: nat)
    ensures
        n <= s.len() ==> after_nexts(s, n) == s.skip(n as int),
        n >= s.len() ==> after_nexts(s, n) == Seq::<T>::empty(),
    decreases n,
{
    if n == 0 || s.len() == 0 {
        assert(s.skip(0) =~= s);
        if s.len() == 0 {
            assert(s =~= Seq::<T>::empty());
        }
    } else {
        lemma_nexts_exhaust(s.drop_first(), (n - 1) as nat);
        if n <= s.len() {
            assert(s.drop_first().skip(n - 1) =~= s.skip(n as int));
        }
    }
}

/// The capacity of a container whose storage has grown `k >= 1` times is
/// two to the power `k - 1`: the first growth gives room for one element,
/// and each later one doubles.
pub proof fn lemma_capacity_doubles<T>(v: Vector<T>)
    requires
        v.wf(),
        v.growths() >= 1,
    ensures
        v.capacity() == pow2((v.growths() - 1) as nat),
{
    lemma_growth_doubles(v.growths());
}

/// A container's capacity is never smaller than its length, and a push
/// never makes it smaller, however many pushes follow one another.
pub proof fn lemma_capacity_under_pushes<T>(v: Vector<T>, n: nat)
    requires
        v.wf(),
    ensures
        v.len() <= v.capacity(),
        v.capacity() <= capacity_after_pushes(v.len() as nat, v.capacity() as nat, n),
        v.len() + n <= capacity_after_pushes(v.len() as nat, v.capacity() as nat, n),
        capacity_after_pushes(v.len() as nat, v.capacity() as nat, n) <= capacity_after_pushes(
            v.len() as nat,
            v.capacity() as nat,
            n + 1,
        ),
{
    lemma_capacity_monotone(v.len() as nat, v.capacity() as nat, n);
}

/// A container that was drained is empty and takes a push, whatever became
/// of the iterator; after the push it holds the pushed element and nothing
/// else.
pub proof fn lemma_push_after_drain<T>(drained: Vector<T>, x: T)
    requires
        drained.wf(),
        drained@ == Seq::<T>::empty(),
    ensures
        drained.len() == 0,
        drained.can_take_one(),
        drained@.push(x).len() == 1,
        drained@.push(x)[0] == x,
{
}

} // verus!
