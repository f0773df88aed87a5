//! The query queue: queries wait here, first in first out, up to a
//! capacity.

use vstd::prelude::*;
use std::collections::VecDeque;
use crate::error::DorisError;

verus! {

/// A query waiting for execution.
#[derive(Debug, Clone)]
pub struct QueuedQuery {
    pub query_id: uuid::Uuid,
    pub query: String,
    pub database: Option<String>,
}

/// A bounded first-in first-out queue of queries, with the number of
/// queries that may execute at once.
pub struct QueryQueue {
    queue: VecDeque<QueuedQuery>,
    max_queue_size: usize,
    max_concurrent: usize,
}

/// Queries leave the queue in the order they arrived: adding a query at the
/// back does not change which query is at the front, nor the order of the
/// others behind it; into an empty queue, it is the next to leave.
pub proof fn lemma_queue_fifo(waiting: Seq<QueuedQuery>, query: QueuedQuery)
    ensures
        waiting.len() == 0 ==> waiting.push(query)[0] == query && waiting.push(query).drop_first()
            == waiting,
        waiting.len() > 0 ==> waiting.push(query)[0] == waiting[0] && waiting.push(
            query,
        ).drop_first() == waiting.drop_first().push(query),
{
    assert(waiting.len() == 0 ==> waiting.push(query).drop_first() =~= waiting);
    assert(waiting.len() > 0 ==> waiting.push(query).drop_first() =~= waiting.drop_first().push(
        query,
    ));
}

impl QueryQueue {
    /// The queue never holds more queries than its capacity.
    #[verifier::type_invariant]
    spec fn within_capacity(self) -> bool {
        self.queue@.len() <= self.max_queue_size
    }

    /// The waiting queries, oldest first.
    pub closed spec fn waiting(&self) -> Seq<QueuedQuery> {
        self.queue@
    }

    /// The capacity of the queue.
    pub closed spec fn capacity(&self) -> usize {
        self.max_queue_size
    }

    /// The number of queries that may execute at once.
    pub closed spec fn concurrency(&self) -> usize {
        self.max_concurrent
    }

    /// An empty queue of the given capacity and concurrency.
    pub fn new(max_queue_size: usize, max_concurrent: usize) -> (r: Self)
        ensures
            r.waiting() == Seq::<QueuedQuery>::empty(),
            r.capacity() == max_queue_size,
            r.concurrency() == max_concurrent,
    {
        QueryQueue { queue: VecDeque::new(), max_queue_size, max_concurrent }
    }

    /// Adds a query at the back; `QueueFull` when the queue is at capacity,
    /// and then the queue is unchanged.
    pub fn enqueue(&mut self, query: QueuedQuery) -> (r: Result<(), DorisError>)
        ensures
            old(self).waiting().len() < old(self).capacity() ==> r is Ok && final(self).waiting()
                == old(self).waiting().push(query),
            old(self).waiting().len() >= old(self).capacity() ==> (r matches Err(DorisError::QueueFull))
                && final(self).waiting() == old(self).waiting(),
            final(self).capacity() == old(self).capacity(),
            final(self).concurrency() == old(self).concurrency(),
            final(self).waiting().len() <= final(self).capacity(),
    {
        proof {
            use_type_invariant(&*self);
        }
        if self.queue.len() >= self.max_queue_size {
            return Err(DorisError::QueueFull);
        }
        let mut waiting = VecDeque::new();
        std::mem::swap(&mut waiting, &mut self.queue);
        waiting.push_back(query);
        self.queue = waiting;
        Ok(())
    }

    /// Takes the oldest query from the front; `None` when the queue is empty.
    pub fn dequeue(&mut self) -> (r: Option<QueuedQuery>)
        ensures
            old(self).waiting().len() == 0 ==> r is None
                && final(self).waiting() == old(self).waiting(),
            old(self).waiting().len() > 0 ==> r == Some(old(self).waiting()[0])
                && final(self).waiting() == old(self).waiting().drop_first(),
            final(self).capacity() == old(self).capacity(),
            final(self).concurrency() == old(self).concurrency(),
            final(self).waiting().len() <= final(self).capacity(),
    {
        proof {
            use_type_invariant(&*self);
        }
        let mut waiting = VecDeque::new();
        std::mem::swap(&mut waiting, &mut self.queue);
        let front = waiting.pop_front();
        self.queue = waiting;
        front
    }

    /// The number of waiting queries.
    pub fn queue_size(&self) -> (r: usize)
        ensures
            r == self.waiting().len(),
            r <= self.capacity(),
    {
        proof {
            use_type_invariant(self);
        }
        self.queue.len()
    }

    /// The number of queries that may execute at once.
    pub fn max_concurrent(&self) -> (r: usize)
        ensures
            r == self.concurrency(),
    {
        self.max_concurrent
    }

    /// The capacity of the queue.
    pub fn max_queue_size(&self) -> (r: usize)
        ensures
            r == self.capacity(),
    {
        self.max_queue_size
    }
}

} // verus!
