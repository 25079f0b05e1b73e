//! The two cursors of a ring buffer: atomic integers, each padded to a cache
//! line of its own so that the side that writes one never invalidates the line
//! that the other side polls.
//!
//! Everything in this file is trusted: it states what `aligned` and the
//! standard library's atomics do, and nothing here is proved.
//!
//! A cursor is read through a shared borrow and written through an exclusive
//! one only. While anyone can read it, nobody can write it, and so the index
//! that it holds is a property of the cursor's value.

use aligned::Aligned;
use aligned::A64;
use std::sync::atomic::AtomicUsize;
use std::sync::atomic::Ordering;
use vstd::prelude::*;

verus! {

/// `aligned::Aligned`, which holds a value at an alignment of at least that of
/// its marker type. Nothing is known of what is inside.
#[verifier::external_type_specification]
#[verifier::external_body]
#[verifier::reject_recursive_types(A)]
#[verifier::reject_recursive_types(T)]
pub struct ExAligned<A, T: ?Sized>(Aligned<A, T>);

/// `aligned::A64`, the marker for an alignment of 64 bytes.
#[verifier::external_type_specification]
#[verifier::external_body]
pub struct ExA64(A64);

/// The index that a cursor holds.
pub uninterp spec fn cursor_value(cursor: Aligned<A64, AtomicUsize>) -> usize;

/// Makes a cursor with `aligned::Aligned` around `AtomicUsize::new`. The claim:
/// the new cursor holds `value`.
#[verifier::external_body]
pub(crate) fn new_cursor(value: usize) -> (cursor: Aligned<A64, AtomicUsize>)
    ensures
        cursor_value(cursor) == value,
{
    Aligned(AtomicUsize::new(value))
}

/// Reads a cursor with `AtomicUsize::load`, reached through `Aligned`'s
/// `Deref`. The claim: the result is the index that the cursor holds. The
/// standard library panics on a load at `Release` or `AcqRel`, so these are left
/// out.
#[verifier::external_body]
pub(crate) fn load(cursor: &Aligned<A64, AtomicUsize>, order: Ordering) -> (value: usize)
    requires
        !(order is Release),
        !(order is AcqRel),
    ensures
        value == cursor_value(*cursor),
{
    cursor.load(order)
}

/// Writes a cursor with `AtomicUsize::store`, reached through `Aligned`'s
/// `Deref`. The claim: afterwards the cursor holds `value`, and the call does
/// not unwind. The standard library panics on a store at `Acquire` or `AcqRel`,
/// so these are left out. The exclusive borrow keeps every other reader and
/// writer away for the length of the call.
#[verifier::external_body]
pub(crate) fn store(cursor: &mut Aligned<A64, AtomicUsize>, value: usize, order: Ordering)
    requires
        !(order is Acquire),
        !(order is AcqRel),
    ensures
        cursor_value(*final(cursor)) == value,
    no_unwind
{
    cursor.store(value, order)
}

} // verus!
