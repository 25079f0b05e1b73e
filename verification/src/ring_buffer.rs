//! The ring buffer itself.

use crate::cursor::cursor_value;
use crate::cursor::load;
use crate::cursor::new_cursor;
use crate::cursor::store;
use crate::fifo::Fifo;
use crate::ring::lemma_ring_unrolled;
use crate::ring::next_slot;
use crate::ring::slot_after;
use crate::ring::steps_between;
use aligned::Aligned;
use aligned::A64;
use std::sync::atomic::AtomicUsize;
use std::sync::atomic::Ordering;
use vstd::math::max;
use vstd::prelude::*;

verus! {

/// A bounded ring buffer for one producer and one consumer.
///
/// The storage is allocated once. Two cursors walk round it: the producer
/// writes at `write_index` and advances it, the consumer reads at `read_index`
/// and advances it. Each side keeps a copy of the other side's cursor, which
/// may be out of date, and looks at the real cursor only when the copy says
/// that the buffer is full (for the producer) or empty (for the consumer).
#[derive(Debug)]
pub struct RingBuffer {
    storage: Vec<i32>,
    read_index: Aligned<A64, AtomicUsize>,
    read_index_cached: usize,
    write_index: Aligned<A64, AtomicUsize>,
    write_index_cached: usize,
}

impl View for RingBuffer {
    type V = Fifo;

    /// The values in the slots from the read cursor up to the write cursor,
    /// oldest first.
    open spec fn view(&self) -> Fifo {
        Fifo {
            capacity: self.slots().len(),
            items: Seq::new(
                steps_between(self.capacity(), self.read_position(), self.write_position()) as nat,
                |k: int| self.slots()[slot_after(self.capacity(), self.read_position(), k)],
            ),
        }
    }
}

impl RingBuffer {
    /// The slots of the storage, resident or not.
    pub closed spec fn slots(&self) -> Seq<i32> {
        self.storage@
    }

    /// The number of slots.
    pub open spec fn capacity(&self) -> int {
        self.slots().len() as int
    }

    /// The slot that the consumer reads next.
    pub closed spec fn read_position(&self) -> int {
        cursor_value(self.read_index) as int
    }

    /// The slot that the producer writes next.
    pub closed spec fn write_position(&self) -> int {
        cursor_value(self.write_index) as int
    }

    /// What holds of every ring buffer: the four cursors lie in the ring, and
    /// walking forward from the producer's copy of the read cursor one meets
    /// the read cursor, the consumer's copy of the write cursor and the write
    /// cursor in this order, before coming round to the start.
    #[verifier::type_invariant]
    pub closed spec fn well_formed(&self) -> bool {
        let capacity = self.capacity();
        let read = self.read_position();
        let write = self.write_position();
        let read_cached = self.read_index_cached as int;
        let write_cached = self.write_index_cached as int;
        &&& read < max(capacity, 1)
        &&& write < max(capacity, 1)
        &&& read_cached < max(capacity, 1)
        &&& write_cached < max(capacity, 1)
        &&& steps_between(capacity, read_cached, read)
            + steps_between(capacity, read, write_cached)
            + steps_between(capacity, write_cached, write) < max(capacity, 1)
    }

    /// How the cursors tell what is resident: they lie in the ring, the buffer
    /// is empty exactly when they meet, and full exactly when the write cursor
    /// stands one step behind the read cursor. At most `capacity - 1` values
    /// are resident at any time.
    pub proof fn lemma_layout(self)
        requires
            self.well_formed(),
        ensures
            self@.well_formed(),
            0 <= self.read_position() < max(self.capacity(), 1),
            0 <= self.write_position() < max(self.capacity(), 1),
            self@.is_empty() <==> self.read_position() == self.write_position(),
            self@.is_full() <==> next_slot(self.capacity(), self.write_position())
                == self.read_position(),
    {
        lemma_ring_unrolled(self.capacity());
    }

    /// Allocates a buffer of `capacity` slots, all zero, with both cursors at
    /// the first slot: the empty queue. One slot always stays free, so the
    /// buffer holds up to `capacity - 1` values; with a capacity of 0 or 1 it
    /// holds none, and is full and empty at once.
    pub fn new(capacity: usize) -> (queue: Self)
        ensures
            queue@ == Fifo::empty(capacity as nat),
            queue.slots() == Seq::new(capacity as nat, |i: int| 0i32),
            queue.read_position() == 0,
            queue.write_position() == 0,
    {
        proof {
            lemma_ring_unrolled(capacity as int);
        }
        let queue = Self {
            storage: vec![0; capacity],
            read_index: new_cursor(0),
            read_index_cached: 0,
            write_index: new_cursor(0),
            write_index_cached: 0,
        };
        assert(queue@.items =~= Seq::<i32>::empty());
        assert(queue.slots() =~= Seq::new(capacity as nat, |i: int| 0i32));
        queue
    }

    /// Producer side. Appends `val` and returns `true`, or returns `false` and
    /// changes nothing when the buffer is full. Never blocks.
    ///
    /// An accepted value goes into the slot at the write cursor, and the
    /// cursor moves on by one slot.
    ///
    /// The producer looks at its copy of the read cursor first and reloads the
    /// cursor, with `Acquire`, only when the copy says that the buffer is
    /// full: the load pairs with the consumer's `Release` store, so that a slot
    /// is written again only after the consumer has finished with it. The
    /// value is written before the write cursor is published.
    pub fn push(&mut self, val: i32) -> (accepted: bool)
        ensures
            accepted == !old(self)@.is_full(),
            final(self)@ == old(self)@.push(val),
            final(self)@.well_formed(),
            final(self).read_position() == old(self).read_position(),
            accepted ==> final(self).slots()
                == old(self).slots().update(old(self).write_position(), val),
            accepted ==> final(self).write_position()
                == next_slot(old(self).capacity(), old(self).write_position()),
            !accepted ==> final(self).slots() == old(self).slots(),
            !accepted ==> final(self).write_position() == old(self).write_position(),
    {
        proof {
            use_type_invariant(&*self);
            lemma_ring_unrolled(self.capacity());
            assert(self.storage.len() <= usize::MAX);
        }
        let write_idx = load(&self.write_index, Ordering::Relaxed);
        let mut next_write_idx = write_idx + 1;

        if next_write_idx >= self.storage.len() {
            next_write_idx = 0;
        }

        if next_write_idx == self.read_index_cached {
            self.read_index_cached = load(&self.read_index, Ordering::Acquire);

            if next_write_idx == self.read_index_cached {
                return false;
            }
        }

        self.storage[write_idx] = val;
        store(&mut self.write_index, next_write_idx, Ordering::Relaxed);
        assert(self@.items =~= old(self)@.items.push(val));

        true
    }

    /// Consumer side. Moves the oldest value into `val` and returns `true`, or
    /// returns `false` and leaves `val` as it was when the buffer is empty.
    /// Never blocks.
    ///
    /// A delivered value comes from the slot at the read cursor, and the
    /// cursor moves on by one slot. The storage is left as it is.
    ///
    /// The consumer looks at its copy of the write cursor first and reloads the
    /// cursor, with `Acquire`, only when the copy says that the buffer is
    /// empty. The value is copied out before the read cursor is published with
    /// `Release`, which hands the slot back to the producer.
    pub fn pop(&mut self, val: &mut i32) -> (delivered: bool)
        ensures
            delivered == !old(self)@.is_empty(),
            final(self)@ == old(self)@.pop(),
            final(self)@.well_formed(),
            delivered ==> Some(*final(val)) == old(self)@.front(),
            !delivered ==> *final(val) == *old(val),
            final(self).slots() == old(self).slots(),
            final(self).write_position() == old(self).write_position(),
            delivered ==> *final(val) == old(self).slots()[old(self).read_position()],
            delivered ==> final(self).read_position()
                == next_slot(old(self).capacity(), old(self).read_position()),
            !delivered ==> final(self).read_position() == old(self).read_position(),
    {
        proof {
            use_type_invariant(&*self);
            lemma_ring_unrolled(self.capacity());
            assert(self.storage.len() <= usize::MAX);
        }
        let read_idx = load(&self.read_index, Ordering::Relaxed);
        if read_idx == self.write_index_cached {
            self.write_index_cached = load(&self.write_index, Ordering::Acquire);
            if read_idx == self.write_index_cached {
                return false;
            }
        }
        *val = self.storage[read_idx];
        let mut next_read_idx = read_idx + 1;

        if next_read_idx == self.storage.len() {
            next_read_idx = 0;
        }
        store(&mut self.read_index, next_read_idx, Ordering::Release);
        assert(self@.items =~= old(self)@.items.drop_first());
        true
    }

    /// Whether the buffer has been drained: the two cursors meet.
    pub fn is_empty(&self) -> (empty: bool)
        ensures
            empty == self@.is_empty(),
            empty == (self.read_position() == self.write_position()),
    {
        proof {
            use_type_invariant(self);
            lemma_ring_unrolled(self.capacity());
        }
        load(&self.read_index, Ordering::Relaxed) == load(&self.write_index, Ordering::Relaxed)
    }
}

impl Default for RingBuffer {
    /// The buffer without storage, which is empty and full at once.
    fn default() -> (queue: Self)
        ensures
            queue@ == Fifo::empty(0),
    {
        RingBuffer::new(0)
    }
}

} // verus!
