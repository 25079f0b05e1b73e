//! What a queue has taken in and given out over any interleaving of push and
//! pop attempts.
//!
//! A producer that retries a refused push and a consumer that retries a
//! refused pop, each taking its turn at the queue, produce just such an
//! interleaving. Whatever the order of the turns, nothing is lost, nothing is
//! delivered twice, and nothing overtakes.

use crate::fifo::Fifo;
use vstd::prelude::*;

verus! {

/// One attempt on the queue.
pub enum Op {
    /// The producer offers a value.
    Push(i32),
    /// The consumer asks for one.
    Pop,
}

/// A queue together with a record of its past: the values whose push was
/// accepted and the values that a pop delivered, each in the order in which it
/// happened.
#[verifier::ext_equal]
pub struct History {
    pub queue: Fifo,
    pub accepted: Seq<i32>,
    pub delivered: Seq<i32>,
}

impl History {
    /// A fresh queue, with nothing accepted and nothing delivered yet.
    pub open spec fn start(capacity: nat) -> History {
        History { queue: Fifo::empty(capacity), accepted: Seq::empty(), delivered: Seq::empty() }
    }

    /// The history after one more attempt. A refused attempt leaves no trace.
    pub open spec fn step(self, op: Op) -> History {
        match op {
            Op::Push(value) => if self.queue.is_full() {
                self
            } else {
                History {
                    queue: self.queue.push(value),
                    accepted: self.accepted.push(value),
                    delivered: self.delivered,
                }
            },
            Op::Pop => match self.queue.front() {
                Some(value) => History {
                    queue: self.queue.pop(),
                    accepted: self.accepted,
                    delivered: self.delivered.push(value),
                },
                None => self,
            },
        }
    }

    /// The history of a fresh queue after the attempts `ops`, made in order.
    pub open spec fn replay(capacity: nat, ops: Seq<Op>) -> History
        decreases ops.len(),
    {
        if ops.len() == 0 {
            History::start(capacity)
        } else {
            History::replay(capacity, ops.drop_last()).step(ops.last())
        }
    }

    /// At every moment the accepted values are exactly the delivered ones
    /// followed by the resident ones, and the resident ones leave a slot free.
    pub proof fn lemma_conservation(capacity: nat, ops: Seq<Op>)
        ensures
            History::replay(capacity, ops).queue.capacity == capacity,
            History::replay(capacity, ops).queue.well_formed(),
            History::replay(capacity, ops).accepted == History::replay(capacity, ops).delivered
                + History::replay(capacity, ops).queue.items,
        decreases ops.len(),
    {
        let now = History::replay(capacity, ops);
        if ops.len() == 0 {
            assert(now.accepted =~= now.delivered + now.queue.items);
        } else {
            History::lemma_conservation(capacity, ops.drop_last());
            assert(now.accepted =~= now.delivered + now.queue.items);
        }
    }

    /// Values are delivered in the order in which they were accepted, without
    /// a gap and without a repeat: what has been delivered so far is the
    /// beginning of what has been accepted.
    pub proof fn lemma_delivered_in_order(capacity: nat, ops: Seq<Op>)
        ensures
            History::replay(capacity, ops).delivered.len() <= History::replay(
                capacity,
                ops,
            ).accepted.len(),
            History::replay(capacity, ops).delivered == History::replay(capacity, ops).accepted.take(
                History::replay(capacity, ops).delivered.len() as int,
            ),
    {
        let now = History::replay(capacity, ops);
        History::lemma_conservation(capacity, ops);
        assert(now.delivered =~= now.accepted.take(now.delivered.len() as int));
    }

    /// When the numbers `0, 1, .., count - 1` are what the queue accepted and
    /// `count` values have been delivered, the consumer has seen exactly
    /// `0, 1, .., count - 1`, and the queue is empty again.
    pub proof fn lemma_counting_load(capacity: nat, ops: Seq<Op>, count: nat)
        requires
            count <= i32::MAX + 1,
            History::replay(capacity, ops).accepted == Seq::new(count, |i: int| i as i32),
            History::replay(capacity, ops).delivered.len() == count,
        ensures
            History::replay(capacity, ops).delivered == Seq::new(count, |i: int| i as i32),
            History::replay(capacity, ops).queue.is_empty(),
    {
        let now = History::replay(capacity, ops);
        History::lemma_conservation(capacity, ops);
        assert(now.accepted.len() == now.delivered.len() + now.queue.items.len());
        assert(now.delivered =~= now.accepted);
    }
}

} // verus!
