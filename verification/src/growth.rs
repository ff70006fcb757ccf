//! The growth policy of the storage, as mathematics: capacities, the byte
//! limit, and what a run of pushes does to a capacity.

use vstd::prelude::*;
use vstd::arithmetic::power2::{pow2, lemma_pow2_unfold, lemma2_to64};
use vstd::layout::size_of;

verus! {

/// The capacity that one growth step gives a storage of capacity `cap`:
/// room for one element when there was none, twice as much otherwise.
pub open spec fn grown_capacity(cap: nat) -> nat {
    if cap == 0 {
        1
    } else {
        2 * cap
    }
}

/// The capacity of a storage that started without any slot and grew `k` times.
pub open spec fn capacity_after_growths(k: nat) -> nat
    decreases k,
{
    if k == 0 {
        0
    } else {
        grown_capacity(capacity_after_growths((k - 1) as nat))
    }
}

/// Whether `cap` slots of `T` fit under the addressable-offset limit, the
/// largest `isize`, counted in bytes.
pub open spec fn fits<T>(cap: nat) -> bool {
    cap * size_of::<T>() <= isize::MAX
}

/// The capacity after one push onto a container of `len` elements and
/// capacity `cap`: the push grows the storage exactly when it is full.
pub open spec fn capacity_after_push(len: nat, cap: nat) -> nat {
    if len == cap {
        grown_capacity(cap)
    } else {
        cap
    }
}

/// The number of growth steps that one push takes: one when the storage is
/// full, none otherwise.
pub open spec fn growths_of_push(len: nat, cap: nat) -> nat {
    if len == cap {
        1
    } else {
        0
    }
}

/// The capacity after `n` pushes in a row.
pub open spec fn capacity_after_pushes(len: nat, cap: nat, n: nat) -> nat
    decreases n,
{
    if n == 0 {
        cap
    } else {
        capacity_after_pushes(len + 1, capacity_after_push(len, cap), (n - 1) as nat)
    }
}

/// The number of growth steps that `n` pushes in a row take.
pub open spec fn growths_after_pushes(len: nat, cap: nat, n: nat) -> nat
    decreases n,
{
    if n == 0 {
        0
    } else {
        growths_of_push(len, cap) + growths_after_pushes(
            len + 1,
            capacity_after_push(len, cap),
            (n - 1) as nat,
        )
    }
}

/// Growth doubles: the first growth gives capacity 1, and the `k`-th gives
/// two to the power `k - 1`.
pub proof fn lemma_growth_doubles(k: nat)
    requires
        k >= 1,
    ensures
        capacity_after_growths(k) == pow2((k - 1) as nat),
    decreases k,
{
    if k == 1 {
        assert(capacity_after_growths(1) == grown_capacity(capacity_after_growths(0)));
        lemma2_to64();
    } else {
        lemma_growth_doubles((k - 1) as nat);
        lemma_pow2_unfold((k - 1) as nat);
    }
}

/// A later capacity of the doubling chain is never smaller than an earlier one.
pub proof fn lemma_growths_monotone(j: nat, k: nat)
    requires
        j <= k,
    ensures
        capacity_after_growths(j) <= capacity_after_growths(k),
    decreases k,
{
    if j < k {
        lemma_growths_monotone(j, (k - 1) as nat);
    }
}

/// Between two capacities of the doubling chain lies no third: growing the
/// smaller of two different ones does not overshoot the larger.
pub proof fn lemma_growth_stays_below(j: nat, k: nat)
    requires
        capacity_after_growths(j) < capacity_after_growths(k),
    ensures
        j < k,
        grown_capacity(capacity_after_growths(j)) <= capacity_after_growths(k),
{
    if j >= k {
        lemma_growths_monotone(k, j);
    }
    lemma_growths_monotone(j + 1, k);
}

/// Capacity under pushes: it never decreases, neither against the capacity
/// at the start nor from one push to the next, and it is never smaller than
/// the length.
pub proof fn lemma_capacity_monotone(len: nat, cap: nat, n: nat)
    requires
        len <= cap,
    ensures
        cap <= capacity_after_pushes(len, cap, n),
        len + n <= capacity_after_pushes(len, cap, n),
        capacity_after_pushes(len, cap, n) <= capacity_after_pushes(len, cap, n + 1),
    decreases n,
{
    if n == 0 {
        assert(capacity_after_pushes(len, cap, 1) == capacity_after_pushes(
            len + 1,
            capacity_after_push(len, cap),
            0,
        ));
    } else {
        lemma_capacity_monotone(len + 1, capacity_after_push(len, cap), (n - 1) as nat);
    }
}

/// A run of pushes that takes `g` growth steps in all moves the capacity `g`
/// places along the doubling chain.
pub proof fn lemma_pushes_follow_chain(len: nat, k: nat, n: nat)
    ensures
        capacity_after_pushes(len, capacity_after_growths(k), n) == capacity_after_growths(
            k + growths_after_pushes(len, capacity_after_growths(k), n),
        ),
    decreases n,
{
    let cap = capacity_after_growths(k);
    if n > 0 {
        if len == cap {
            assert(capacity_after_push(len, cap) == capacity_after_growths(k + 1));
            lemma_pushes_follow_chain(len + 1, k + 1, (n - 1) as nat);
        } else {
            lemma_pushes_follow_chain(len + 1, k, (n - 1) as nat);
        }
    }
}

/// Starting from empty, once the pushes have triggered `k >= 1` growth
/// steps, the capacity is two to the power `k - 1`.
pub proof fn lemma_pushes_from_empty(n: nat)
    ensures
        growths_after_pushes(0, 0, n) >= 1 ==> capacity_after_pushes(0, 0, n) == pow2(
            (growths_after_pushes(0, 0, n) - 1) as nat,
        ),
        n >= 1 ==> growths_after_pushes(0, 0, n) >= 1,
{
    lemma_pushes_follow_chain(0, 0, n);
    let g = growths_after_pushes(0, 0, n);
    if g >= 1 {
        lemma_growth_doubles(g);
    }
}

} // verus!
