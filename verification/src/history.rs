//! Runs of a queue and what holds of every one of them.
//!
//! The lock puts the operations that complete on one queue in a single
//! order, whatever the number of threads. A run is that order, written as a
//! sequence of events. An insertion completes only while there is room and
//! a removal only while there is an item, so a run that can happen is one
//! in which every event finds the queue ready for it.

use vstd::prelude::*;

verus! {

/// One completed operation on a queue.
pub enum Event<T> {
    /// An insertion of the given value.
    Put(T),
    /// A removal of the oldest item.
    Take,
}

/// What a queue that started empty holds after `events`, oldest item first.
pub open spec fn contents<T>(events: Seq<Event<T>>) -> Seq<T>
    decreases events.len(),
{
    if events.len() == 0 {
        Seq::empty()
    } else {
        let earlier = contents(events.drop_last());
        match events.last() {
            Event::Put(value) => earlier.push(value),
            Event::Take => earlier.drop_first(),
        }
    }
}

/// Every event of the run came at a moment at which a queue of the given
/// capacity lets it complete: each insertion found room, each removal found
/// an item.
pub open spec fn permitted<T>(capacity: nat, events: Seq<Event<T>>) -> bool
    decreases events.len(),
{
    events.len() == 0 || {
        let earlier = events.drop_last();
        &&& permitted(capacity, earlier)
        &&& match events.last() {
            Event::Put(_) => contents(earlier).len() < capacity,
            Event::Take => contents(earlier).len() > 0,
        }
    }
}

/// The values that the insertions of the run passed in, in order.
pub open spec fn inserted<T>(events: Seq<Event<T>>) -> Seq<T>
    decreases events.len(),
{
    if events.len() == 0 {
        Seq::empty()
    } else {
        let earlier = inserted(events.drop_last());
        match events.last() {
            Event::Put(value) => earlier.push(value),
            Event::Take => earlier,
        }
    }
}

/// The values that the removals of the run returned, in order.
pub open spec fn removed<T>(events: Seq<Event<T>>) -> Seq<T>
    decreases events.len(),
{
    if events.len() == 0 {
        Seq::empty()
    } else {
        let earlier = removed(events.drop_last());
        match events.last() {
            Event::Put(_) => earlier,
            Event::Take => earlier.push(contents(events.drop_last()).first()),
        }
    }
}

/// A run that can happen stays one when it is cut short.
pub proof fn lemma_permitted_prefix<T>(capacity: nat, events: Seq<Event<T>>, upto: int)
    requires
        permitted(capacity, events),
        0 <= upto <= events.len(),
    ensures
        permitted(capacity, events.take(upto)),
    decreases events.len(),
{
    if upto == events.len() {
        assert(events.take(upto) =~= events);
    } else {
        assert(events.take(upto) =~= events.drop_last().take(upto));
        lemma_permitted_prefix(capacity, events.drop_last(), upto);
    }
}

/// The number of items held never exceeds the capacity: not at the end of a
/// run that can happen, and not at any moment on the way there.
pub proof fn lemma_capacity_never_exceeded<T>(capacity: nat, events: Seq<Event<T>>, upto: int)
    requires
        permitted(capacity, events),
        0 <= upto <= events.len(),
    ensures
        0 <= contents(events.take(upto)).len() <= capacity,
{
    lemma_permitted_prefix(capacity, events, upto);
    lemma_bounded(capacity, events.take(upto));
}

proof fn lemma_bounded<T>(capacity: nat, events: Seq<Event<T>>)
    requires
        permitted(capacity, events),
    ensures
        contents(events).len() <= capacity,
    decreases events.len(),
{
    if events.len() > 0 {
        lemma_bounded(capacity, events.drop_last());
    }
}

/// Items leave in the order in which they came: the values inserted are the
/// values removed so far, followed by what the queue still holds. So each
/// removal returns the value of the insertion of the same rank, and once the
/// queue is empty again the removals have returned exactly the values
/// inserted.
pub proof fn lemma_first_in_first_out<T>(capacity: nat, events: Seq<Event<T>>)
    requires
        permitted(capacity, events),
    ensures
        inserted(events) == removed(events) + contents(events),
        removed(events).len() <= inserted(events).len(),
        forall|n: int| 0 <= n < removed(events).len() ==> removed(events)[n] == inserted(events)[n],
        contents(events).len() == 0 ==> removed(events) == inserted(events),
    decreases events.len(),
{
    if events.len() > 0 {
        lemma_first_in_first_out(capacity, events.drop_last());
    }
    assert(inserted(events) =~= removed(events) + contents(events));
    if contents(events).len() == 0 {
        assert(removed(events) =~= inserted(events));
    }
}

/// Nothing is lost and nothing comes twice: after a run that can happen,
/// the queue holds as many items as were inserted and not yet removed. Every
/// event of the run is one insertion or one removal.
pub proof fn lemma_conservation<T>(capacity: nat, events: Seq<Event<T>>)
    requires
        permitted(capacity, events),
    ensures
        inserted(events).len() - removed(events).len() == contents(events).len(),
        inserted(events).len() + removed(events).len() == events.len(),
    decreases events.len(),
{
    if events.len() > 0 {
        lemma_conservation(capacity, events.drop_last());
    }
}

} // verus!
