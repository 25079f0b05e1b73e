//! Arithmetic on the slots of a ring: positions count from 0 and wrap round at
//! the capacity.

use vstd::arithmetic::div_mod::lemma_fundamental_div_mod_converse;
use vstd::prelude::*;

verus! {

/// The slot that lies `offset` steps after slot `start`. A ring without slots
/// has only the position 0.
pub open spec fn slot_after(capacity: int, start: int, offset: int) -> int {
    if capacity <= 0 {
        0
    } else {
        (start + offset) % capacity
    }
}

/// The slot that follows slot `index`.
pub open spec fn next_slot(capacity: int, index: int) -> int {
    slot_after(capacity, index, 1)
}

/// The number of steps that lead from slot `from` forward to slot `to`.
pub open spec fn steps_between(capacity: int, from: int, to: int) -> int {
    if capacity <= 0 {
        0
    } else {
        (to - from) % capacity
    }
}

/// Walking on from a slot of the ring either stays below the capacity or wraps
/// round once.
pub proof fn lemma_slot_after(capacity: int, start: int, offset: int)
    requires
        0 <= start < capacity,
        0 <= offset <= capacity,
    ensures
        0 <= slot_after(capacity, start, offset) < capacity,
        slot_after(capacity, start, offset) == if start + offset < capacity {
            start + offset
        } else {
            start + offset - capacity
        },
{
    if start + offset < capacity {
        lemma_fundamental_div_mod_converse(start + offset, capacity, 0, start + offset);
    } else {
        lemma_fundamental_div_mod_converse(start + offset, capacity, 1, start + offset - capacity);
    }
}

/// The steps between two slots of the ring are fewer than the capacity, and
/// walking them from the first slot ends at the second.
pub proof fn lemma_steps_between(capacity: int, from: int, to: int)
    requires
        0 <= from < capacity,
        0 <= to < capacity,
    ensures
        0 <= steps_between(capacity, from, to) < capacity,
        steps_between(capacity, from, to) == if to >= from {
            to - from
        } else {
            to + capacity - from
        },
        slot_after(capacity, from, steps_between(capacity, from, to)) == to,
{
    if to >= from {
        lemma_fundamental_div_mod_converse(to - from, capacity, 0, to - from);
    } else {
        lemma_fundamental_div_mod_converse(to - from, capacity, -1, to + capacity - from);
    }
    lemma_slot_after(capacity, from, steps_between(capacity, from, to));
}

/// Every walk within a ring of `capacity` slots, with the wrap written out.
pub proof fn lemma_ring_unrolled(capacity: int)
    ensures
        forall|from: int, to: int|
            0 <= from < capacity && 0 <= to < capacity ==> #[trigger] steps_between(
                capacity,
                from,
                to,
            ) == (if to >= from {
                to - from
            } else {
                to + capacity - from
            }),
        forall|start: int, offset: int|
            0 <= start < capacity && 0 <= offset <= capacity ==> #[trigger] slot_after(
                capacity,
                start,
                offset,
            ) == (if start + offset < capacity {
                start + offset
            } else {
                start + offset - capacity
            }),
{
    assert forall|from: int, to: int|
        0 <= from < capacity && 0 <= to < capacity implies #[trigger] steps_between(
        capacity,
        from,
        to,
    ) == (if to >= from {
        to - from
    } else {
        to + capacity - from
    }) by {
        lemma_steps_between(capacity, from, to);
    }
    assert forall|start: int, offset: int|
        0 <= start < capacity && 0 <= offset <= capacity implies #[trigger] slot_after(
        capacity,
        start,
        offset,
    ) == (if start + offset < capacity {
        start + offset
    } else {
        start + offset - capacity
    }) by {
        lemma_slot_after(capacity, start, offset);
    }
}

} // verus!
