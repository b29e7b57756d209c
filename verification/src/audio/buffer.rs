//! The bounded byte queue between the network reader and the decoder.
//!
//! The producer waits while the queue has no room for the whole chunk; the
//! consumer waits while it is empty. A disconnected queue wakes both: the
//! producer's chunks are dropped and the consumer drains what is left, then
//! reads end of stream. The waiting itself (locks and condition variables)
//! belongs to the caller; this type decides when to wait and what moves.

use std::collections::VecDeque;
use vstd::prelude::*;

verus! {

broadcast use vstd::std_specs::vecdeque::group_vec_dequeue_axioms;

/// A bounded FIFO queue of bytes.
pub struct BufferQueue {
    queue: VecDeque<u8>,
    pub capacity: usize,
    disconnected: bool,
}

/// What a queue holds: its bytes, front first, its capacity and whether it
/// was disconnected.
pub struct QueueView {
    pub bytes: Seq<u8>,
    pub capacity: nat,
    pub disconnected: bool,
}

impl View for BufferQueue {
    type V = QueueView;

    closed spec fn view(&self) -> QueueView {
        QueueView { bytes: self.queue@, capacity: self.capacity as nat, disconnected: self.disconnected }
    }
}

/// Whether the producer must wait before it may push `n` bytes.
pub open spec fn push_must_wait(q: QueueView, n: nat) -> bool {
    q.bytes.len() + n > q.capacity && !q.disconnected
}

/// The queue after a push of `bytes` (dropped once disconnected).
pub open spec fn pushed(q: QueueView, bytes: Seq<u8>) -> QueueView {
    if q.disconnected {
        q
    } else {
        QueueView { bytes: q.bytes + bytes, ..q }
    }
}

/// Whether the consumer must wait before it reads.
pub open spec fn pop_must_wait(q: QueueView) -> bool {
    q.bytes.len() == 0 && !q.disconnected
}

/// How many bytes a read into a buffer of `room` bytes takes.
pub open spec fn pop_count(q: QueueView, room: nat) -> nat {
    if room < q.bytes.len() { room } else { q.bytes.len() }
}

/// The queue after a read into a buffer of `room` bytes.
pub open spec fn popped(q: QueueView, room: nat) -> QueueView {
    QueueView { bytes: q.bytes.skip(pop_count(q, room) as int), ..q }
}

/// Whether a wait for `target` queued bytes is over.
pub open spec fn reached(q: QueueView, target: nat) -> bool {
    q.bytes.len() >= target || q.disconnected
}

impl BufferQueue {
    /// An empty, connected queue of the given capacity.
    pub fn new(capacity: usize) -> (q: Self)
        ensures
            q@.bytes == Seq::<u8>::empty(),
            q@.capacity == capacity,
            !q@.disconnected,
    {
        BufferQueue { queue: VecDeque::with_capacity(capacity), capacity, disconnected: false }
    }

    /// Whether a producer with `n` bytes must wait for room first.
    pub fn push_must_wait(&self, n: usize) -> (b: bool)
        ensures
            b == push_must_wait(self@, n as nat),
    {
        let len = self.queue.len();
        let over = len > self.capacity || n > self.capacity - len;
        over && !self.disconnected
    }

    /// Appends `bytes` at the back, unless the queue was disconnected.
    pub fn push(&mut self, bytes: &[u8])
        ensures
            final(self)@ == pushed(old(self)@, bytes@),
    {
        if self.disconnected {
            return;
        }
        let ghost start = self.queue@;
        let mut i: usize = 0;
        while i < bytes.len()
            invariant
                i <= bytes.len(),
                self.queue@ == start + bytes@.take(i as int),
                self.capacity == old(self).capacity,
                self.disconnected == old(self).disconnected,
                start == old(self).queue@,
            decreases bytes.len() - i,
        {
            self.queue.push_back(bytes[i]);
            assert(bytes@.take(i + 1) =~= bytes@.take(i as int).push(bytes@[i as int]));
            i += 1;
        }
        assert(bytes@.take(bytes@.len() as int) =~= bytes@);
    }

    /// Whether a consumer must wait for bytes first.
    pub fn pop_must_wait(&self) -> (b: bool)
        ensures
            b == pop_must_wait(self@),
    {
        self.queue.len() == 0 && !self.disconnected
    }

    /// Moves as many bytes as fit from the front of the queue to the front of
    /// `buf` and returns their number; 0 only when the queue is empty (end of
    /// stream once disconnected).
    pub fn pop(&mut self, buf: &mut [u8]) -> (n: usize)
        ensures
            n == pop_count(old(self)@, old(buf)@.len()),
            final(self)@ == popped(old(self)@, old(buf)@.len()),
            final(buf)@.len() == old(buf)@.len(),
            final(buf)@.take(n as int) == old(self)@.bytes.take(n as int),
            final(buf)@.skip(n as int) == old(buf)@.skip(n as int),
    {
        let count = if buf.len() < self.queue.len() { buf.len() } else { self.queue.len() };
        let ghost start = self.queue@;
        let ghost initial = buf@;
        let mut i: usize = 0;
        while i < count
            invariant
                count <= buf.len(),
                count <= start.len(),
                i <= count,
                buf@.len() == initial.len(),
                self.queue@ == start.skip(i as int),
                buf@.take(i as int) == start.take(i as int),
                buf@.skip(i as int) == initial.skip(i as int),
                self.capacity == old(self).capacity,
                self.disconnected == old(self).disconnected,
                start == old(self).queue@,
            decreases count - i,
        {
            let front = self.queue.pop_front();
            match front {
                Some(b) => {
                    let ghost before = buf@;
                    buf[i] = b;
                    assert(buf@ =~= before.update(i as int, b));
                    assert(buf@.take(i + 1) =~= start.take(i + 1));
                    assert(buf@.skip(i + 1) =~= initial.skip(i + 1)) by {
                        assert(before.skip(i as int) =~= initial.skip(i as int));
                        assert forall|k: int| 0 <= k < buf@.len() - (i + 1) implies #[trigger] buf@.skip(i + 1)[k] == initial.skip(i + 1)[k] by {
                            assert(before.skip(i as int)[k + 1] == initial.skip(i as int)[k + 1]);
                        }
                    }
                    assert(self.queue@ =~= start.skip(i + 1));
                },
                None => {
                    assert(false);
                },
            }
            i += 1;
        }
        count
    }

    /// Whether a wait for `target` queued bytes is over (or can never be).
    pub fn reached(&self, target: usize) -> (b: bool)
        ensures
            b == reached(self@, target as nat),
    {
        self.queue.len() >= target || self.disconnected
    }

    /// The number of queued bytes.
    pub fn len(&self) -> (n: usize)
        ensures
            n == self@.bytes.len(),
    {
        self.queue.len()
    }

    /// Marks the queue disconnected (or connected again); the bytes stay.
    pub fn set_disconnected(&mut self, disc: bool)
        ensures
            final(self)@ == (QueueView { disconnected: disc, ..old(self)@ }),
    {
        self.disconnected = disc;
    }
}

/// Bytes leave the queue in the order they entered it: everything pushed
/// into a connected queue is read back after what it already held.
pub proof fn lemma_first_in_first_out(q: QueueView, bytes: Seq<u8>)
    requires
        !q.disconnected,
    ensures
        ({
            let after = pushed(q, bytes);
            let n = pop_count(after, q.bytes.len() + bytes.len());
            n == q.bytes.len() + bytes.len()
            && after.bytes.take(n as int) == q.bytes + bytes
            && popped(after, n).bytes.len() == 0
        }),
{
    let after = pushed(q, bytes);
    assert(after.bytes.take(after.bytes.len() as int) =~= q.bytes + bytes);
    assert(popped(after, after.bytes.len()).bytes =~= Seq::<u8>::empty());
}

/// A producer that did not have to wait never takes the queue beyond its
/// capacity.
pub proof fn lemma_push_within_capacity(q: QueueView, bytes: Seq<u8>)
    requires
        q.bytes.len() <= q.capacity,
        !push_must_wait(q, bytes.len()),
    ensures
        pushed(q, bytes).bytes.len() <= q.capacity,
{
}

/// A disconnected queue never keeps anyone waiting.
pub proof fn lemma_disconnect_wakes_everyone(q: QueueView, n: nat, target: nat)
    requires
        q.disconnected,
    ensures
        !push_must_wait(q, n),
        !pop_must_wait(q),
        reached(q, target),
{
}

} // verus!
