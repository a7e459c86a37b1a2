//! The mathematical model of a cursor's position.
//!
//! A position over a sequence of length `len` is a number in `0..=len`.
//! Numbers below `len` are valid positions; `len` itself is the ghost.

use vstd::prelude::*;

verus! {

/// `index` denotes an element of a sequence of length `len`.
pub open spec fn is_valid(len: nat, index: nat) -> bool {
    index < len
}

/// `index` is a position over a sequence of length `len`: valid or the ghost.
pub open spec fn in_bounds(len: nat, index: nat) -> bool {
    index <= len
}

/// The position one step forward: the ghost goes to the front, a valid
/// position to its successor (which is the ghost after the last element).
pub open spec fn next_position(len: nat, index: nat) -> nat {
    if is_valid(len, index) {
        index + 1
    } else {
        0
    }
}

/// The position one step backward: the front wraps to the ghost, every other
/// position goes to its predecessor. On the empty sequence the ghost stays.
pub open spec fn prev_position(len: nat, index: nat) -> nat {
    if index > 0 {
        (index - 1) as nat
    } else if is_valid(len, index) {
        len
    } else {
        0
    }
}

/// The slot at which an item placed after the position lands, and the first
/// slot of what lies after the position.
pub open spec fn slot_after(len: nat, index: nat) -> nat {
    next_position(len, index)
}

/// The slot at which an item placed before the position lands.
pub open spec fn slot_before(index: nat) -> nat {
    if index > 0 {
        (index - 1) as nat
    } else {
        0
    }
}

/// The element of `items` at `index`, if `index` is valid.
pub open spec fn element_at<T>(items: Seq<T>, index: nat) -> Option<T> {
    if is_valid(items.len(), index) {
        Some(items[index as int])
    } else {
        None
    }
}

/// `items` with `extra` placed contiguously so that its first element, if it
/// has one, lands at slot `at`.
pub open spec fn spliced<T>(items: Seq<T>, at: nat, extra: Seq<T>) -> Seq<T> {
    items.subrange(0, at as int) + extra + items.subrange(at as int, items.len() as int)
}

/// What lies before slot `at`.
pub open spec fn head_before<T>(items: Seq<T>, at: nat) -> Seq<T> {
    items.subrange(0, at as int)
}

/// What lies at slot `at` and after it.
pub open spec fn tail_from<T>(items: Seq<T>, at: nat) -> Seq<T> {
    items.subrange(at as int, items.len() as int)
}

/// The position after `count` steps forward from `index`.
pub open spec fn steps_next(len: nat, index: nat, count: nat) -> nat
    decreases count,
{
    if count == 0 {
        index
    } else {
        next_position(len, steps_next(len, index, (count - 1) as nat))
    }
}

/// The position after `count` steps backward from `index`.
pub open spec fn steps_prev(len: nat, index: nat, count: nat) -> nat
    decreases count,
{
    if count == 0 {
        index
    } else {
        prev_position(len, steps_prev(len, index, (count - 1) as nat))
    }
}

/// Forward from the ghost, the `count`-th step lands on slot `count - 1`.
proof fn lemma_steps_next_from_ghost(len: nat, count: nat)
    requires
        1 <= count <= len + 1,
    ensures
        steps_next(len, len, count) == count - 1,
    decreases count,
{
    if count > 1 {
        lemma_steps_next_from_ghost(len, (count - 1) as nat);
    } else {
        assert(steps_next(len, len, 0) == len);
    }
}

/// Backward from the ghost, the `count`-th step lands on slot `len - count`.
proof fn lemma_steps_prev_from_ghost(len: nat, count: nat)
    requires
        count <= len,
    ensures
        steps_prev(len, len, count) == len - count,
    decreases count,
{
    if count > 0 {
        lemma_steps_prev_from_ghost(len, (count - 1) as nat);
    }
}

/// The positions form a circle of `len + 1` slots: from the ghost, `len + 1`
/// steps forward come back to the ghost, and the ghost is not met on the way
/// when there are elements.
pub proof fn lemma_next_full_circle(len: nat)
    ensures
        steps_next(len, len, len + 1) == len,
        forall|count: nat| 1 <= count <= len ==> is_valid(len, #[trigger] steps_next(len, len, count)),
{
    lemma_steps_next_from_ghost(len, len + 1);
    assert forall|count: nat| 1 <= count <= len implies is_valid(
        len,
        #[trigger] steps_next(len, len, count),
    ) by {
        lemma_steps_next_from_ghost(len, count);
    }
}

/// From the ghost, `len + 1` steps backward come back to the ghost, and the
/// ghost is not met on the way when there are elements.
pub proof fn lemma_prev_full_circle(len: nat)
    ensures
        steps_prev(len, len, len + 1) == len,
        forall|count: nat| 1 <= count <= len ==> is_valid(len, #[trigger] steps_prev(len, len, count)),
{
    lemma_steps_prev_from_ghost(len, len);
    assert forall|count: nat| 1 <= count <= len implies is_valid(
        len,
        #[trigger] steps_prev(len, len, count),
    ) by {
        lemma_steps_prev_from_ghost(len, count);
    }
}

/// Splicing nothing in changes nothing.
pub proof fn lemma_splice_nothing<T>(items: Seq<T>, at: nat)
    requires
        at <= items.len(),
    ensures
        spliced(items, at, Seq::<T>::empty()) == items,
{
    assert(spliced(items, at, Seq::<T>::empty()) =~= items);
}

/// Taking the head off at a position and splicing it back in before the
/// front, where the cursor then stands, restores the elements and moves the
/// cursor back to the position it came from, valid or ghost as before.
pub proof fn lemma_split_before_splice_before<T>(items: Seq<T>, index: nat)
    requires
        in_bounds(items.len(), index),
    ensures
        spliced(tail_from(items, index), 0, head_before(items, index)) == items,
        0 + head_before(items, index).len() == index,
        is_valid(
            spliced(tail_from(items, index), 0, head_before(items, index)).len(),
            0 + head_before(items, index).len(),
        ) == is_valid(items.len(), index),
{
    assert(spliced(tail_from(items, index), 0, head_before(items, index)) =~= items);
}

} // verus!
