use crate::chunk::VideoChunk;
use vstd::prelude::*;

verus! {

/// Slots of the hand-off between an upload's producer and its consumer.
pub const QUEUE_CAPACITY: usize = 8;

/// Why an item was not accepted; the item is handed back.
pub enum PushError<T> {
    /// The queue holds `capacity` items; the producer has to wait.
    Full(T),
    /// The queue was closed; nothing more is accepted.
    Closed(T),
}

/// What a consumer gets when it asks for the next item.
pub enum PopOutcome<T> {
    /// The oldest item still held.
    Item(T),
    /// Nothing held yet, but more may come; the consumer has to wait.
    Empty,
    /// Closed and drained: nothing more will ever come.
    Closed,
}

/// A fixed-capacity FIFO hand-off between one producer and one consumer,
/// with a one-way close signal.
pub struct BoundedQueue<T> {
    items: Vec<T>,
    capacity: usize,
    closed: bool,
    pushed: Ghost<Seq<T>>,
    taken: Ghost<Seq<T>>,
}

impl<T> BoundedQueue<T> {
    /// The items held, oldest first.
    pub closed spec fn items(&self) -> Seq<T> {
        self.items@
    }

    pub closed spec fn capacity(&self) -> nat {
        self.capacity as nat
    }

    pub closed spec fn is_closed(&self) -> bool {
        self.closed
    }

    /// Every item ever accepted, in order of acceptance.
    pub closed spec fn pushed(&self) -> Seq<T> {
        self.pushed@
    }

    /// Every item ever handed to the consumer, in order.
    pub closed spec fn taken(&self) -> Seq<T> {
        self.taken@
    }

    pub closed spec fn wf(&self) -> bool {
        &&& self.capacity > 0
        &&& self.items@.len() <= self.capacity
        &&& self.taken@ + self.items@ == self.pushed@
    }

    /// The same queue once closed.
    pub closed spec fn after_close(&self) -> Self {
        BoundedQueue {
            items: self.items,
            capacity: self.capacity,
            closed: true,
            pushed: self.pushed,
            taken: self.taken,
        }
    }

    /// A pop would have to wait for the producer.
    pub open spec fn would_block(&self) -> bool {
        self.items().len() == 0 && !self.is_closed()
    }

    /// An empty, open queue with room for `capacity` items.
    pub fn new(capacity: usize) -> (r: Self)
        requires
            capacity > 0,
        ensures
            r.wf(),
            r.capacity() == capacity,
            r.items() == Seq::<T>::empty(),
            r.pushed() == Seq::<T>::empty(),
            r.taken() == Seq::<T>::empty(),
            !r.is_closed(),
    {
        BoundedQueue {
            items: Vec::new(),
            capacity,
            closed: false,
            pushed: Ghost(Seq::empty()),
            taken: Ghost(Seq::empty()),
        }
    }

    /// Number of items held.
    pub fn len(&self) -> (r: usize)
        ensures
            r == self.items().len(),
    {
        self.items.len()
    }

    /// Whether the close signal has been given.
    pub fn is_closed_now(&self) -> (r: bool)
        ensures
            r == self.is_closed(),
    {
        self.closed
    }

    /// Appends `item` at the back, unless the queue is closed or full.
    pub fn push(&mut self, item: T) -> (r: Result<(), PushError<T>>)
        requires
            old(self).wf(),
        ensures
            final(self).wf(),
            final(self).capacity() == old(self).capacity(),
            final(self).is_closed() == old(self).is_closed(),
            final(self).taken() == old(self).taken(),
            old(self).is_closed() ==> r == Err::<(), PushError<T>>(PushError::Closed(item))
                && *final(self) == *old(self),
            !old(self).is_closed() && old(self).items().len() == old(self).capacity() ==> r
                == Err::<(), PushError<T>>(PushError::Full(item)) && *final(self) == *old(self),
            !old(self).is_closed() && old(self).items().len() < old(self).capacity() ==> {
                &&& r is Ok
                &&& final(self).items() == old(self).items().push(item)
                &&& final(self).pushed() == old(self).pushed().push(item)
            },
    {
        if self.closed {
            return Err(PushError::Closed(item));
        }
        if self.items.len() >= self.capacity {
            return Err(PushError::Full(item));
        }
        self.pushed = Ghost(self.pushed@.push(item));
        self.items.push(item);
        assert(self.taken@ + self.items@ =~= self.pushed@);
        Ok(())
    }

    /// Takes the oldest item; on an empty queue, reports whether more may
    /// come (`Empty`) or never will (`Closed`).
    pub fn pop(&mut self) -> (r: PopOutcome<T>)
        requires
            old(self).wf(),
        ensures
            final(self).wf(),
            final(self).capacity() == old(self).capacity(),
            final(self).is_closed() == old(self).is_closed(),
            final(self).pushed() == old(self).pushed(),
            old(self).items().len() > 0 ==> {
                &&& r == PopOutcome::Item(old(self).items()[0])
                &&& final(self).items() == old(self).items().drop_first()
                &&& final(self).taken() == old(self).taken().push(old(self).items()[0])
            },
            old(self).items().len() == 0 ==> *final(self) == *old(self) && (r is Closed
                <==> old(self).is_closed()) && (r is Empty <==> !old(self).is_closed()),
    {
        if self.items.len() == 0 {
            if self.closed {
                return PopOutcome::Closed;
            } else {
                return PopOutcome::Empty;
            }
        }
        let item = self.items.remove(0);
        self.taken = Ghost(self.taken@.push(item));
        assert(self.items@ =~= old(self).items@.drop_first());
        assert(self.taken@ + self.items@ =~= self.pushed@);
        PopOutcome::Item(item)
    }

    /// Gives the one-way close signal; the items held stay for the consumer.
    pub fn close(&mut self)
        requires
            old(self).wf(),
        ensures
            final(self).wf(),
            *final(self) == old(self).after_close(),
            final(self).is_closed(),
            final(self).items() == old(self).items(),
            final(self).capacity() == old(self).capacity(),
            final(self).pushed() == old(self).pushed(),
            final(self).taken() == old(self).taken(),
    {
        self.closed = true;
    }
}

/// Produced but not yet consumed items never outnumber the capacity, in any
/// state a well-formed queue can reach.
pub proof fn lemma_bounded_backlog<T>(q: BoundedQueue<T>)
    requires
        q.wf(),
    ensures
        q.items().len() <= q.capacity(),
        q.pushed().len() - q.taken().len() <= q.capacity(),
{
}

/// Closing is one-way and idempotent: closing a closed queue changes nothing,
/// and a closed queue never makes its consumer wait.
pub proof fn lemma_close_idempotent<T>(q: BoundedQueue<T>)
    requires
        q.wf(),
    ensures
        q.after_close().wf(),
        q.after_close().after_close() == q.after_close(),
        q.is_closed() ==> q.after_close() == q,
        !q.after_close().would_block(),
{
}

/// The consumer takes items in the order they were accepted: what it has
/// taken is always a prefix of what was pushed.
pub proof fn lemma_fifo_prefix<T>(q: BoundedQueue<T>)
    requires
        q.wf(),
    ensures
        q.taken().len() <= q.pushed().len(),
        q.taken() == q.pushed().subrange(0, q.taken().len() as int),
{
    assert(q.taken() =~= (q.taken() + q.items()).subrange(0, q.taken().len() as int));
}

/// When the producer pushes chunks numbered 0, 1, 2, ... the consumer sees
/// them numbered 0, 1, 2, ...: strictly increasing, no gap, no duplicate.
pub proof fn lemma_consumer_sees_order(q: BoundedQueue<VideoChunk>)
    requires
        q.wf(),
        forall|i: int| 0 <= i < q.pushed().len() ==> (#[trigger] q.pushed()[i]).chunk_index == i,
    ensures
        forall|i: int| 0 <= i < q.taken().len() ==> (#[trigger] q.taken()[i]).chunk_index == i,
{
    lemma_fifo_prefix(q);
    assert forall|i: int| 0 <= i < q.taken().len() implies (#[trigger] q.taken()[i]).chunk_index
        == i by {
        assert(q.taken()[i] == q.pushed()[i]);
    }
}

} // verus!
