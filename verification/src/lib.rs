//! A bounded single-producer/single-consumer ring buffer of `i32` values.
//!
//! [`RingBuffer`] hands a stream of values from one side to the other in
//! first-in, first-out order. It never blocks: a push onto a full buffer and a
//! pop from an empty one are answered at once with `false`.
//!
//! Every operation is specified against [`Fifo`], the queue that the buffer
//! stands for, and against the slots and cursors that hold it ([`ring`]). The
//! properties of the queue are proved in [`fifo`], and those of whole runs of
//! pushes and pops in [`history`]. What is taken on trust of the cursors'
//! atomics is gathered in [`cursor`].

pub mod cursor;
pub mod fifo;
pub mod history;
pub mod ring;
pub mod ring_buffer;

pub use fifo::Fifo;
pub use history::History;
pub use history::Op;
pub use ring_buffer::RingBuffer;
