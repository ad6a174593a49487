//! The queue that threads share.

use crate::buffer::Buffer;
use crate::sync::{lock, wait_to_offer, wait_to_poll};
use std::sync::{Arc, Condvar, Mutex};
use vstd::prelude::*;

verus! {

/// What all handles of one queue share: the capacity, the buffer behind its
/// lock, and the two conditions on which threads sleep.
#[verifier::reject_recursive_types(T)]
struct QueueData<T> {
    /// The capacity of the buffer that was put behind the lock. It stands
    /// outside the lock because it never changes.
    capacity: usize,
    items: Mutex<Buffer<T>>,
    /// Signalled after each insertion; consumers sleep on it.
    nonempty: Condvar,
    /// Signalled after each removal; producers sleep on it.
    nonfull: Condvar,
}

impl<T> QueueData<T> {
    #[verifier::type_invariant]
    spec fn has_room(&self) -> bool {
        0 < self.capacity
    }

    /// An empty buffer for `count` items behind a free lock, and two
    /// conditions on which no thread sleeps yet. The capacity noted beside
    /// the lock is read from that buffer.
    fn with_capacity(count: usize) -> (data: QueueData<T>)
        requires
            count > 0,
        ensures
            data.capacity == count,
    {
        let buffer = Buffer::with_capacity(count);
        let capacity = buffer.capacity();
        QueueData {
            capacity,
            items: Mutex::new(buffer),
            nonempty: Condvar::new(),
            nonfull: Condvar::new(),
        }
    }
}

/// A queue with any number of producers and consumers, for passing values
/// between threads.
///
/// Each `Queue` has a fixed capacity, chosen when it is made. `put` blocks
/// while the queue is full and `take` blocks while it is empty, so a slow
/// stage of a pipeline holds back the stages before it and lets the stages
/// after it sleep. Items leave in the order in which they came; which of
/// several sleeping threads wakes first is not determined.
///
/// A `Queue` is a handle. Cloning it gives another handle to the same
/// queue; the queue lives as long as one of its handles does.
///
/// All that a thread does to the queue it does to the [`Buffer`] behind the
/// lock, through `Buffer::offer` and `Buffer::poll`, one call at a time.
/// What holds of every `Buffer` therefore holds of the queue at every
/// moment, whatever the number of threads. What one insertion or one removal
/// does is stated there, in the contracts of those two: `put` and `take`
/// cannot speak of the state behind the lock, which other threads change
/// before and after each call.
#[verifier::reject_recursive_types(T)]
pub struct Queue<T> {
    data: Arc<QueueData<T>>,
}

impl<T> Clone for Queue<T> {
    /// Another handle to the same queue. No item is copied.
    fn clone(&self) -> (handle: Self)
        ensures
            handle == *self,
    {
        Queue { data: self.data.clone() }
    }
}

impl<T> Queue<T> {
    /// The largest number of items the queue may hold: the number it was
    /// made with, the same for every handle and for as long as it lives.
    pub closed spec fn spec_capacity(&self) -> usize {
        self.data.capacity
    }

    /// Creates an empty `Queue` with space for at most `count` items.
    ///
    /// A queue without space could never take an item, so `count` must be
    /// positive. What the queue starts with is what `Buffer::with_capacity`
    /// promises of the buffer that goes behind the lock here: no item, room
    /// for `count`, and no event so far. Of the handle itself the capacity
    /// can be stated, and is.
    pub fn with_capacity(count: usize) -> (queue: Queue<T>)
        requires
            count > 0,
        ensures
            queue.capacity() == count,
    {
        Queue { data: Arc::new(QueueData::with_capacity(count)) }
    }

    /// The largest number of items the queue may hold. It is positive, and
    /// answered without taking the lock.
    #[verifier::when_used_as_spec(spec_capacity)]
    pub fn capacity(&self) -> (capacity: usize)
        ensures
            capacity == self.spec_capacity(),
            capacity > 0,
    {
        proof {
            use_type_invariant(&*self.data);
        }
        self.data.capacity
    }

    /// Adds `value` at the back of the queue.
    ///
    /// While the queue is full the call sleeps, until a `take` has made
    /// room. When it returns, the value is in the queue and one thread that
    /// slept in `take`, if there was one, has been woken.
    pub fn put(&self, value: T) {
        let mut pending = Some(value);
        let held = lock(&self.data.items);
        let _held = wait_to_offer(&self.data.nonfull, held, &mut pending);
        assert(pending is None);
        self.data.nonempty.notify_one();
        // The lock is released here, after the signal.
    }

    /// Removes the item at the front of the queue and returns it.
    ///
    /// While the queue is empty the call sleeps, until a `put` has brought
    /// an item. When it returns, one thread that slept in `put`, if there
    /// was one, has been woken.
    pub fn take(&self) -> T {
        let mut taken = None;
        let held = lock(&self.data.items);
        let _held = wait_to_poll(&self.data.nonempty, held, &mut taken);
        self.data.nonfull.notify_one();
        taken.unwrap()
        // The lock is released here, after the signal.
    }
}

} // verus!
