//! The state that a queue keeps under its lock: the items in arrival order,
//! the limit on how many of them it may hold, and a record of every
//! insertion and removal so far.

use crate::history::{
    contents, inserted, lemma_conservation, lemma_first_in_first_out, permitted, removed, Event,
};
use std::collections::VecDeque;
use vstd::prelude::*;

verus! {

/// A first-in-first-out store of at most `capacity()` items.
///
/// Its view is the sequence of the items it holds, oldest first. Beside the
/// items it keeps, for the verifier only, the run that led to them: one
/// event for each insertion and each removal since it was made.
pub struct Buffer<T> {
    items: VecDeque<T>,
    capacity: usize,
    history: Ghost<Seq<Event<T>>>,
}

impl<T> View for Buffer<T> {
    type V = Seq<T>;

    closed spec fn view(&self) -> Seq<T> {
        self.items@
    }
}

impl<T> Buffer<T> {
    /// What Verus checks wherever a `Buffer` is built or changed, and what
    /// `use_type_invariant` therefore yields of any `Buffer` at any time:
    /// the capacity is positive, the items are no more than the capacity,
    /// the recorded run is one that can happen, and the items are what that
    /// run leaves in a queue that started empty.
    #[verifier::type_invariant]
    pub open spec fn well_formed(&self) -> bool {
        &&& 0 < self.capacity()
        &&& self@.len() <= self.capacity()
        &&& permitted(self.capacity() as nat, self.history())
        &&& self@ == contents(self.history())
    }

    /// The largest number of items the buffer may hold.
    pub closed spec fn spec_capacity(&self) -> usize {
        self.capacity
    }

    /// The insertions and removals made on this buffer so far, in order.
    pub closed spec fn history(&self) -> Seq<Event<T>> {
        self.history@
    }

    /// No further item fits.
    pub open spec fn spec_is_full(&self) -> bool {
        self@.len() == self.capacity()
    }

    /// There is no item to hand out.
    pub open spec fn spec_is_empty(&self) -> bool {
        self@.len() == 0
    }

    /// An empty buffer with room for `capacity` items. The room is reserved
    /// here, once, so that no later insertion has to allocate.
    pub fn with_capacity(capacity: usize) -> (buffer: Self)
        requires
            capacity > 0,
        ensures
            buffer@ == Seq::<T>::empty(),
            buffer.capacity() == capacity,
            buffer.history() == Seq::<Event<T>>::empty(),
    {
        Buffer { items: VecDeque::with_capacity(capacity), capacity, history: Ghost(Seq::empty()) }
    }

    /// The largest number of items the buffer may hold: the positive number
    /// it was made with.
    #[verifier::when_used_as_spec(spec_capacity)]
    pub fn capacity(&self) -> (capacity: usize)
        ensures
            capacity == self.spec_capacity(),
            capacity > 0,
    {
        proof {
            use_type_invariant(self);
        }
        self.capacity
    }

    /// The number of items held. It never exceeds the capacity, and it is
    /// the number of insertions so far less the number of removals.
    pub fn len(&self) -> (len: usize)
        ensures
            len == self@.len(),
            len <= self.capacity(),
            len == inserted(self.history()).len() - removed(self.history()).len(),
    {
        proof {
            use_type_invariant(self);
            lemma_conservation(self.capacity() as nat, self.history());
        }
        self.items.len()
    }

    /// Whether the buffer holds as many items as it may, so that an
    /// insertion has to wait.
    #[verifier::when_used_as_spec(spec_is_full)]
    pub fn is_full(&self) -> (full: bool)
        ensures
            full == self.spec_is_full(),
    {
        self.items.len() == self.capacity
    }

    /// Whether the buffer holds no item, so that a removal has to wait.
    #[verifier::when_used_as_spec(spec_is_empty)]
    pub fn is_empty(&self) -> (empty: bool)
        ensures
            empty == self.spec_is_empty(),
    {
        self.items.len() == 0
    }

    /// Moves the items out, so that they can be changed and put back
    /// together with the event that records the change. Until then the
    /// buffer is left empty with an empty history.
    fn release(&mut self) -> (items: VecDeque<T>)
        ensures
            items@ == old(self)@,
            final(self).capacity() == old(self).capacity(),
    {
        proof {
            use_type_invariant(&*self);
        }
        let mut rest =
            Buffer { items: VecDeque::new(), capacity: self.capacity, history: Ghost(Seq::empty()) };
        std::mem::swap(self, &mut rest);
        rest.items
    }

    /// Appends `value` behind the items already held.
    pub fn push_back(&mut self, value: T)
        requires
            !old(self).is_full(),
        ensures
            final(self)@ == old(self)@.push(value),
            final(self)@.len() <= final(self).capacity(),
            final(self).capacity() == old(self).capacity(),
            final(self).history() == old(self).history().push(Event::Put(value)),
    {
        proof {
            use_type_invariant(&*self);
        }
        let ghost run = self.history@.push(Event::Put(value));
        let mut items = self.release();
        items.push_back(value);
        assert(run.drop_last() =~= old(self).history());
        *self = Buffer { items, capacity: self.capacity, history: Ghost(run) };
    }

    /// Removes the oldest item and returns it: the value of the earliest
    /// insertion that no removal has answered yet.
    pub fn pop_front(&mut self) -> (value: T)
        requires
            !old(self).is_empty(),
        ensures
            value == old(self)@.first(),
            value == inserted(old(self).history())[removed(old(self).history()).len() as int],
            final(self)@ == old(self)@.drop_first(),
            final(self)@.len() <= final(self).capacity(),
            final(self).capacity() == old(self).capacity(),
            final(self).history() == old(self).history().push(Event::Take),
    {
        proof {
            use_type_invariant(&*self);
            lemma_first_in_first_out(self.capacity() as nat, self.history());
        }
        let ghost run = self.history@.push(Event::Take);
        let mut items = self.release();
        let front = items.pop_front();
        assert(run.drop_last() =~= old(self).history());
        *self = Buffer { items, capacity: self.capacity, history: Ghost(run) };
        front.unwrap()
    }

    /// One attempt to hand `pending` over to the buffer.
    ///
    /// Where an item is pending and the buffer has room, the item goes to
    /// the back of the buffer and `pending` is left empty. Where the buffer
    /// is full, nothing changes and the result says that the caller has to
    /// wait. With nothing pending there is nothing to wait for.
    pub fn offer(&mut self, pending: &mut Option<T>) -> (waiting: bool)
        ensures
            waiting == (*old(pending) is Some && old(self).is_full()),
            waiting ==> *final(self) == *old(self) && *final(pending) == *old(pending),
            !waiting ==> *final(pending) is None,
            !waiting ==> final(self)@ == match *old(pending) {
                Some(value) => old(self)@.push(value),
                None => old(self)@,
            },
            !waiting ==> final(self).history() == match *old(pending) {
                Some(value) => old(self).history().push(Event::Put(value)),
                None => old(self).history(),
            },
            final(self).capacity() == old(self).capacity(),
            final(self)@.len() <= final(self).capacity(),
    {
        proof {
            use_type_invariant(&*self);
        }
        if self.is_full() {
            return pending.is_some();
        }
        match pending.take() {
            Some(value) => self.push_back(value),
            None => {},
        }
        false
    }

    /// One attempt to take the oldest item out of the buffer into `taken`.
    ///
    /// Where the buffer holds an item, the oldest one leaves it and replaces
    /// what `taken` held: it is the value of the earliest insertion that no
    /// removal has answered yet. Where the buffer is empty, nothing changes
    /// and the result says that the caller has to wait.
    pub fn poll(&mut self, taken: &mut Option<T>) -> (waiting: bool)
        ensures
            waiting == old(self).is_empty(),
            waiting ==> *final(self) == *old(self) && *final(taken) == *old(taken),
            !waiting ==> *final(taken) == Some(old(self)@.first()),
            !waiting ==> *final(taken) == Some(
                inserted(old(self).history())[removed(old(self).history()).len() as int],
            ),
            !waiting ==> final(self)@ == old(self)@.drop_first(),
            !waiting ==> final(self).history() == old(self).history().push(Event::Take),
            final(self).capacity() == old(self).capacity(),
            final(self)@.len() <= final(self).capacity(),
    {
        proof {
            use_type_invariant(&*self);
        }
        if self.is_empty() {
            return true;
        }
        *taken = Some(self.pop_front());
        false
    }
}

} // verus!
