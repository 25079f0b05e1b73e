//! The mathematical queue that a ring buffer stands for.

use vstd::math::max;
use vstd::math::min;
use vstd::prelude::*;

verus! {

/// A bounded first-in, first-out queue: the values that are resident, oldest
/// first, and the number of slots they live in.
///
/// One slot always stays free, so that a full queue can be told from an empty
/// one: a queue of capacity `c` holds at most `c - 1` values.
#[verifier::ext_equal]
pub struct Fifo {
    pub capacity: nat,
    pub items: Seq<i32>,
}

impl Fifo {
    /// The queue of the given capacity that holds nothing.
    pub open spec fn empty(capacity: nat) -> Fifo {
        Fifo { capacity, items: Seq::empty() }
    }

    /// The resident values leave one slot free. A queue of capacity 0 or 1
    /// never holds anything.
    pub open spec fn well_formed(self) -> bool {
        self.items.len() == 0 || self.items.len() < self.capacity
    }

    /// Nothing is resident.
    pub open spec fn is_empty(self) -> bool {
        self.items.len() == 0
    }

    /// Only the slot that must stay free is left.
    pub open spec fn is_full(self) -> bool {
        self.items.len() + 1 >= self.capacity
    }

    /// The queue after an attempt to push `value`: the value joins at the back
    /// unless the queue is full, in which case nothing changes.
    pub open spec fn push(self, value: i32) -> Fifo {
        if self.is_full() {
            self
        } else {
            Fifo { capacity: self.capacity, items: self.items.push(value) }
        }
    }

    /// The value that the next pop delivers, if any.
    pub open spec fn front(self) -> Option<i32> {
        if self.is_empty() {
            None
        } else {
            Some(self.items[0])
        }
    }

    /// The queue after an attempt to pop: the oldest value leaves unless the
    /// queue is empty, in which case nothing changes.
    pub open spec fn pop(self) -> Fifo {
        if self.is_empty() {
            self
        } else {
            Fifo { capacity: self.capacity, items: self.items.drop_first() }
        }
    }

    /// The number of values that can still be pushed before the queue is full.
    pub open spec fn room(self) -> nat {
        if self.is_full() {
            0
        } else {
            (self.capacity - 1 - self.items.len()) as nat
        }
    }

    /// The queue after an attempt to push each of `values` in turn.
    pub open spec fn push_all(self, values: Seq<i32>) -> Fifo
        decreases values.len(),
    {
        if values.len() == 0 {
            self
        } else {
            self.push_all(values.drop_last()).push(values.last())
        }
    }

    /// The queue after `count` attempts to pop.
    pub open spec fn pop_n(self, count: nat) -> Fifo
        decreases count,
    {
        if count == 0 {
            self
        } else {
            self.pop().pop_n((count - 1) as nat)
        }
    }

    /// The values that `count` attempts to pop deliver, in the order in which
    /// they come out. An attempt on an empty queue delivers nothing.
    pub open spec fn drain(self, count: nat) -> Seq<i32>
        decreases count,
    {
        if count == 0 {
            Seq::empty()
        } else {
            match self.front() {
                Some(value) => seq![value] + self.pop().drain((count - 1) as nat),
                None => self.pop().drain((count - 1) as nat),
            }
        }
    }

    /// The queue after each of `rounds` in turn has been pushed and then popped
    /// again, value for value.
    pub open spec fn cycle_all(self, rounds: Seq<Seq<i32>>) -> Fifo
        decreases rounds.len(),
    {
        if rounds.len() == 0 {
            self
        } else {
            self.cycle_all(rounds.drop_last()).push_all(rounds.last()).pop_n(rounds.last().len())
        }
    }

}

/// What holds of every queue.
impl Fifo {
    /// A fresh queue is empty: a pop delivers nothing and leaves it as it is.
    pub proof fn lemma_empty_start(capacity: nat)
        ensures
            Fifo::empty(capacity).well_formed(),
            Fifo::empty(capacity).is_empty(),
            Fifo::empty(capacity).front() is None,
            Fifo::empty(capacity).pop() == Fifo::empty(capacity),
    {
    }

    /// Neither operation changes the capacity, and both keep a well-formed
    /// queue well-formed: no sequence of pushes and pops makes more than
    /// `capacity - 1` values resident.
    pub proof fn lemma_step_keeps_well_formed(self, value: i32)
        requires
            self.well_formed(),
        ensures
            self.push(value).well_formed(),
            self.push(value).capacity == self.capacity,
            self.pop().well_formed(),
            self.pop().capacity == self.capacity,
    {
    }

    /// Pushing a run of values appends as many of them as there is room for,
    /// in their order, and drops the rest.
    pub proof fn lemma_push_all(self, values: Seq<i32>)
        ensures
            self.push_all(values).capacity == self.capacity,
            self.push_all(values).items == self.items + values.take(
                min(values.len() as int, self.room() as int),
            ),
        decreases values.len(),
    {
        let kept = min(values.len() as int, self.room() as int);
        if values.len() == 0 {
            assert(self.items =~= self.items + values.take(kept));
        } else {
            let earlier = values.drop_last();
            let kept_earlier = min(earlier.len() as int, self.room() as int);
            self.lemma_push_all(earlier);
            let before = self.push_all(earlier);
            if before.is_full() {
                assert(kept == kept_earlier);
                assert(values.take(kept) =~= earlier.take(kept_earlier));
            } else {
                assert(kept == values.len());
                assert(earlier.take(kept_earlier) =~= earlier);
                assert(values.take(kept) =~= earlier.push(values.last()));
                assert(before.items.push(values.last()) =~= self.items + values.take(kept));
            }
        }
    }

    /// With capacity `c`, pushes alone make at most `c - 1` values resident:
    /// once that many have been pushed the queue is full, and every further
    /// push is refused.
    pub proof fn lemma_capacity_bound(capacity: nat, values: Seq<i32>, value: i32)
        requires
            values.len() + 1 >= capacity,
        ensures
            Fifo::empty(capacity).push_all(values).items.len() == max(capacity - 1, 0),
            Fifo::empty(capacity).push_all(values).is_full(),
            Fifo::empty(capacity).push_all(values).push(value) == Fifo::empty(capacity).push_all(
                values,
            ),
    {
        Fifo::empty(capacity).lemma_push_all(values);
    }

    /// Successive pops deliver the resident values from the oldest on, and
    /// leave the rest in place.
    pub proof fn lemma_drain(self, count: nat)
        ensures
            self.drain(count) == self.items.take(min(count as int, self.items.len() as int)),
            self.pop_n(count).capacity == self.capacity,
            self.pop_n(count).items == self.items.skip(min(count as int, self.items.len() as int)),
        decreases count,
    {
        let taken = min(count as int, self.items.len() as int);
        if count == 0 {
            assert(self.drain(count) =~= self.items.take(taken));
            assert(self.pop_n(count).items =~= self.items.skip(taken));
        } else {
            let rest = (count - 1) as nat;
            self.pop().lemma_drain(rest);
            if self.is_empty() {
                assert(self.drain(count) =~= self.items.take(taken));
                assert(self.pop_n(count).items =~= self.items.skip(taken));
            } else {
                let taken_rest = min(rest as int, self.pop().items.len() as int);
                assert(taken == taken_rest + 1);
                assert(seq![self.items[0]] + self.items.drop_first().take(taken_rest)
                    =~= self.items.take(taken));
                assert(self.items.drop_first().skip(taken_rest) =~= self.items.skip(taken));
            }
        }
    }

    /// First in, first out: values that are all accepted come out again in
    /// the order in which they were pushed, behind those that were resident
    /// before them.
    pub proof fn lemma_fifo_order(self, values: Seq<i32>)
        requires
            values.len() <= self.room(),
        ensures
            self.push_all(values).items == self.items + values,
            self.push_all(values).drain(self.items.len() + values.len()) == self.items + values,
            self.push_all(values).pop_n(self.items.len() + values.len()) == Fifo::empty(
                self.capacity,
            ),
    {
        self.lemma_push_all(values);
        assert(values.take(values.len() as int) =~= values);
        let filled = self.push_all(values);
        let count = self.items.len() + values.len();
        filled.lemma_drain(count);
        assert(filled.items.take(count as int) =~= filled.items);
        assert(filled.items.skip(count as int) =~= Seq::<i32>::empty());
    }

    /// Filling a fresh queue to the brim makes it full, and draining it then
    /// gives back every value and the fresh queue: full and empty are never
    /// mistaken for one another.
    pub proof fn lemma_fill_and_drain(capacity: nat, values: Seq<i32>)
        requires
            values.len() + 1 == capacity,
        ensures
            Fifo::empty(capacity).push_all(values).is_full(),
            Fifo::empty(capacity).push_all(values).drain(values.len()) == values,
            Fifo::empty(capacity).push_all(values).pop_n(values.len()) == Fifo::empty(capacity),
    {
        let fresh = Fifo::empty(capacity);
        fresh.lemma_push_all(values);
        fresh.lemma_fifo_order(values);
        assert(fresh.items + values =~= values);
    }

    /// After any number of rounds, each of which fills a fresh queue to the
    /// brim and drains it, the queue is the fresh queue once more.
    pub proof fn lemma_wrap_cycles(capacity: nat, rounds: Seq<Seq<i32>>)
        requires
            forall|i: int| 0 <= i < rounds.len() ==> (#[trigger] rounds[i]).len() + 1 == capacity,
        ensures
            Fifo::empty(capacity).cycle_all(rounds) == Fifo::empty(capacity),
        decreases rounds.len(),
    {
        if rounds.len() > 0 {
            Fifo::lemma_wrap_cycles(capacity, rounds.drop_last());
            Fifo::lemma_fill_and_drain(capacity, rounds.last());
        }
    }
}

} // verus!
