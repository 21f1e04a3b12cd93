//! Finite State Machine

use vstd::prelude::*;
use std::fmt::Debug;

verus! {

/// `concurrent_queue::ConcurrentQueue`: a queue that many threads can push
/// to and pop from. It is carried through, never looked into.
#[verifier::external_type_specification]
#[verifier::external_body]
#[verifier::reject_recursive_types(T)]
pub struct ExConcurrentQueue<T>(concurrent_queue::ConcurrentQueue<T>);

/// `ConcurrentQueue::bounded` of concurrent-queue: a new queue with room for
/// `cap` items. It panics on a capacity of zero, which the condition leaves
/// out. Nothing is claimed of the queue.
pub assume_specification<T>[ concurrent_queue::ConcurrentQueue::<T>::bounded ](cap: usize) -> (queue:
    concurrent_queue::ConcurrentQueue<T>)
    requires
        cap > 0,
;

/// The queue is as `ConcurrentQueue::bounded` returns one: nothing has been
/// pushed yet, it is open, and it has room for at least one item.
pub open spec fn is_new<T>(queue: concurrent_queue::ConcurrentQueue<T>) -> bool {
    exists|cap: usize|
        cap > 0 && call_ensures(concurrent_queue::ConcurrentQueue::<T>::bounded, (cap,), queue)
}

/// `ConcurrentQueue::push` of concurrent-queue, on a queue that the caller
/// alone holds and gets back. A queue that is full or closed gives the item
/// back in its error: the item given back is the one that was passed in. A
/// queue that is as `bounded` returned it is neither, so that the push is
/// taken.
#[verifier::external_body]
fn queue_push<T>(queue: concurrent_queue::ConcurrentQueue<T>, value: T) -> (r: (
    concurrent_queue::ConcurrentQueue<T>,
    Result<(), T>,
))
    ensures
        r.1 is Err ==> r.1->Err_0 == value,
        is_new(queue) ==> r.1 is Ok,
{
    let pushed = match queue.push(value) {
        Ok(()) => Ok(()),
        Err(concurrent_queue::PushError::Full(refused)) => Err(refused),
        Err(concurrent_queue::PushError::Closed(refused)) => Err(refused),
    };
    (queue, pushed)
}

/// A cell with room for one value, to be matched on by one task at a time.
#[verifier::reject_recursive_types(T)]
pub struct MatchCell<T> where T: Debug {
    q: concurrent_queue::ConcurrentQueue<T>,
}

impl<T: Debug> MatchCell<T> {
    /// A cell that holds `inner`: a new queue with room for one value, into
    /// which the value is pushed. A new queue takes a push, so there always
    /// is a cell.
    pub fn new(inner: T) -> (cell: Self)
        ensures
            exists|queue: concurrent_queue::ConcurrentQueue<T>|
                call_ensures(concurrent_queue::ConcurrentQueue::<T>::bounded, (1usize,), queue)
                    && cell.took(queue, inner),
    {
        let fresh = concurrent_queue::ConcurrentQueue::bounded(1);
        let ghost queue = fresh;
        let (q, pushed) = queue_push(fresh, inner);
        assert(pushed is Ok);
        let cell = match Self::filled(q, pushed) {
            Ok(cell) => cell,
            Err(_) => unreached(),
        };
        assert(cell.took(queue, inner));
        cell
    }

    /// The queue behind the cell is `queue` after it took the push of `inner`.
    pub closed spec fn took(&self, queue: concurrent_queue::ConcurrentQueue<T>, inner: T) -> bool {
        exists|pushed: Result<(), T>|
            pushed is Ok && call_ensures(queue_push::<T>, (queue, inner), (self.q, pushed))
    }

    /// The queue behind the cell.
    pub closed spec fn queue(&self) -> concurrent_queue::ConcurrentQueue<T> {
        self.q
    }

    /// The cell, from the queue and from what the queue answered when the
    /// value was pushed: a queue that took the value is the cell, and a value
    /// that was refused comes back as the error.
    pub fn filled(q: concurrent_queue::ConcurrentQueue<T>, pushed: Result<(), T>) -> (cell: Result<
        Self,
        T,
    >)
        ensures
            pushed is Ok ==> cell is Ok && cell->Ok_0.queue() == q,
            pushed matches Err(refused) ==> cell == Err::<Self, T>(refused),
    {
        match pushed {
            Ok(()) => Ok(Self { q }),
            Err(refused) => Err(refused),
        }
    }
}

} // verus!
