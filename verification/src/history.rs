//! The bounded conversation history: a fixed-capacity, insertion-ordered
//! buffer of messages, oldest first, evicting the single oldest entry on
//! overflow.

use vstd::prelude::*;
use ringbuffer::RingBuffer;

verus! {

#[verifier::external_type_specification]
#[verifier::external_body]
#[verifier::reject_recursive_types(T)]
pub struct ExAllocRingBuffer<T>(ringbuffer::AllocRingBuffer<T>);

/// The entries a ring buffer holds, oldest first.
pub uninterp spec fn ring_entries(b: ringbuffer::AllocRingBuffer<String>) -> Seq<Seq<char>>;

/// The fixed capacity a ring buffer was created with.
pub uninterp spec fn ring_capacity(b: ringbuffer::AllocRingBuffer<String>) -> nat;

/// Relies on `AllocRingBuffer::new`: an empty buffer with the given
/// capacity. It panics on capacity zero, which the precondition rules out.
#[verifier::external_body]
fn ring_new(capacity: usize) -> (r: ringbuffer::AllocRingBuffer<String>)
    requires
        1 <= capacity,
    ensures
        ring_entries(r) == Seq::<Seq<char>>::empty(),
        ring_capacity(r) == capacity,
{
    ringbuffer::AllocRingBuffer::new(capacity)
}

/// Relies on `RingBuffer::push` for `AllocRingBuffer`: appends the new
/// entry, first dequeuing the oldest one when the buffer is full.
#[verifier::external_body]
fn ring_push(b: &mut ringbuffer::AllocRingBuffer<String>, item: String)
    ensures
        ring_capacity(*final(b)) == ring_capacity(*old(b)),
        ring_entries(*old(b)).len() < ring_capacity(*old(b)) ==> ring_entries(*final(b))
            == ring_entries(*old(b)).push(item@),
        ring_entries(*old(b)).len() >= ring_capacity(*old(b)) ==> ring_entries(*final(b))
            == ring_entries(*old(b)).drop_first().push(item@),
{
    b.push(item)
}

/// Relies on `RingBuffer::len` for `AllocRingBuffer`: the number of entries.
#[verifier::external_body]
fn ring_len(b: &ringbuffer::AllocRingBuffer<String>) -> (r: usize)
    ensures
        r == ring_entries(*b).len(),
{
    b.len()
}

/// Relies on `RingBuffer::clear` for `AllocRingBuffer`: drops every entry
/// and keeps the capacity.
#[verifier::external_body]
fn ring_clear(b: &mut ringbuffer::AllocRingBuffer<String>)
    ensures
        ring_entries(*final(b)) == Seq::<Seq<char>>::empty(),
        ring_capacity(*final(b)) == ring_capacity(*old(b)),
{
    b.clear()
}

/// Relies on `RingBuffer::iter` for `AllocRingBuffer`: walks the entries
/// oldest first.
#[verifier::external_body]
fn ring_to_vec(b: &ringbuffer::AllocRingBuffer<String>) -> (r: Vec<String>)
    ensures
        r@.map_values(|s: String| s@) == ring_entries(*b),
{
    b.iter().cloned().collect()
}

/// How a bounded history accepts a new entry: append it, evicting the
/// single oldest entry when the buffer is already at capacity.
pub open spec fn push_evict(entries: Seq<Seq<char>>, capacity: nat, item: Seq<char>) -> Seq<
    Seq<char>,
> {
    if entries.len() < capacity {
        entries.push(item)
    } else {
        entries.drop_first().push(item)
    }
}

/// Pushing below capacity grows the history by one entry at the end and
/// keeps every prior entry at its place.
pub proof fn law_push_below_capacity(entries: Seq<Seq<char>>, capacity: nat, item: Seq<char>)
    requires
        entries.len() < capacity,
    ensures
        push_evict(entries, capacity, item).len() == entries.len() + 1,
        forall|i: int| 0 <= i < entries.len() ==> push_evict(entries, capacity, item)[i]
            == entries[i],
        push_evict(entries, capacity, item).last() == item,
{
}

/// Pushing at capacity keeps the length at capacity and drops exactly the
/// oldest entry: every surviving entry moves one place toward the front.
pub proof fn law_push_at_capacity(entries: Seq<Seq<char>>, capacity: nat, item: Seq<char>)
    requires
        entries.len() == capacity,
        capacity >= 1,
    ensures
        push_evict(entries, capacity, item).len() == capacity,
        forall|i: int| 0 <= i < capacity - 1 ==> push_evict(entries, capacity, item)[i]
            == entries[i + 1],
        push_evict(entries, capacity, item).last() == item,
{
}

/// The bounded conversation history.
pub struct History {
    buf: ringbuffer::AllocRingBuffer<String>,
}

impl View for History {
    type V = Seq<Seq<char>>;

    /// The entries, oldest first.
    closed spec fn view(&self) -> Seq<Seq<char>> {
        ring_entries(self.buf)
    }
}

impl History {
    /// The capacity fixed at construction.
    pub closed spec fn capacity(self) -> nat {
        ring_capacity(self.buf)
    }

    /// Well-formed: positive capacity, never more entries than capacity.
    pub open spec fn wf(self) -> bool {
        1 <= self.capacity() && self@.len() <= self.capacity()
    }

    /// An empty history with the given capacity.
    pub fn new(capacity: usize) -> (h: History)
        requires
            1 <= capacity,
        ensures
            h.wf(),
            h@ == Seq::<Seq<char>>::empty(),
            h.capacity() == capacity,
    {
        History { buf: ring_new(capacity) }
    }

    /// Appends one entry, evicting the oldest when at capacity.
    pub fn push(&mut self, item: String)
        requires
            old(self).wf(),
        ensures
            final(self).wf(),
            final(self).capacity() == old(self).capacity(),
            final(self)@ == push_evict(old(self)@, old(self).capacity(), item@),
    {
        ring_push(&mut self.buf, item);
    }

    /// The number of entries held.
    pub fn len(&self) -> (r: usize)
        ensures
            r == self@.len(),
    {
        ring_len(&self.buf)
    }

    /// A snapshot of the entries, oldest first.
    pub fn snapshot(&self) -> (v: Vec<String>)
        ensures
            v@.map_values(|s: String| s@) == self@,
    {
        ring_to_vec(&self.buf)
    }

    /// Drops every entry; the capacity stays.
    pub fn clear(&mut self)
        requires
            old(self).wf(),
        ensures
            final(self).wf(),
            final(self)@ == Seq::<Seq<char>>::empty(),
            final(self).capacity() == old(self).capacity(),
    {
        ring_clear(&mut self.buf);
    }
}

} // verus!
