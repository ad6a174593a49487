//! What this crate takes on trust from `std::sync`: the lock around the
//! buffer and the two conditions that threads sleep on.
//!
//! Nothing here says what a lock holds at a given moment: another thread
//! may change that as soon as the lock is free. What is known of the
//! buffer behind the lock is what is known of every `Buffer`.
//!
//! The calls that take the lock panic where the lock is poisoned. A lock is
//! poisoned once a thread has panicked while holding it; the threads of this
//! crate hold it only while they run `Buffer::offer` or `Buffer::poll` and
//! send a signal, none of which panics.

use crate::buffer::Buffer;
use std::sync::{Condvar, Mutex, MutexGuard};
use vstd::prelude::*;

verus! {

/// `std::sync::Mutex`, of which the verifier sees nothing.
#[verifier::external_type_specification]
#[verifier::external_body]
#[verifier::reject_recursive_types(T)]
pub struct ExMutex<T: ?Sized>(Mutex<T>);

/// `std::sync::MutexGuard`, of which the verifier sees nothing.
#[verifier::external_type_specification]
#[verifier::external_body]
#[verifier::reject_recursive_types(T)]
pub struct ExMutexGuard<'a, T: ?Sized + 'a>(MutexGuard<'a, T>);

/// `std::sync::Condvar`, of which the verifier sees nothing.
#[verifier::external_type_specification]
#[verifier::external_body]
pub struct ExCondvar(Condvar);

/// `Mutex::new` puts a value behind a new lock, which is free. Nothing is
/// claimed of the result.
pub assume_specification<T>[ Mutex::<T>::new ](value: T) -> (mutex: Mutex<T>);

/// `Condvar::new` makes a condition on which no thread sleeps yet. Nothing
/// is claimed of the result.
pub assume_specification[ Condvar::new ]() -> (condition: Condvar);

/// `Condvar::notify_one` wakes one of the threads that sleep on the
/// condition, if there is any. It returns nothing and nothing is claimed of
/// it.
pub assume_specification[ Condvar::notify_one ](condition: &Condvar);

/// `Mutex::lock`: sleeps until the calling thread holds the lock, and
/// returns the guard that releases the lock when it is dropped.
///
/// Nothing is claimed of the result. The calling thread must not hold the
/// lock already. A poisoned lock makes the call panic.
#[verifier::external_body]
pub(crate) fn lock<'a, T>(mutex: &'a Mutex<Buffer<T>>) -> (held: MutexGuard<'a, Buffer<T>>) {
    mutex.lock().unwrap()
}

/// `Condvar::wait_while` with `Buffer::offer` as its condition.
///
/// The call runs `offer` on the buffer behind `held` at once, and again
/// each time the thread has woken and has the lock back; in between the
/// thread sleeps on `room` with the lock released. It returns, with the lock
/// held, as soon as `offer` has answered that there is nothing to wait for.
/// By the contract of `offer`, `pending` is empty by then: that is what is
/// claimed. The caller has to bring an item in `pending`: the call is there
/// to hand one over. The call does not return for as long as the buffer
/// stays full. A poisoned lock makes it panic.
#[verifier::external_body]
pub(crate) fn wait_to_offer<'a, T>(
    room: &Condvar,
    held: MutexGuard<'a, Buffer<T>>,
    pending: &mut Option<T>,
) -> (still_held: MutexGuard<'a, Buffer<T>>)
    requires
        *old(pending) is Some,
    ensures
        *final(pending) is None,
{
    room.wait_while(held, |buffer| buffer.offer(pending)).unwrap()
}

/// `Condvar::wait_while` with `Buffer::poll` as its condition.
///
/// The call runs `poll` on the buffer behind `held` at once, and again each
/// time the thread has woken and has the lock back; in between the thread
/// sleeps on `item` with the lock released. It returns, with the lock held,
/// as soon as `poll` has answered that there is nothing to wait for. By the
/// contract of `poll`, `taken` holds an item by then: that is what is
/// claimed. The caller has to bring `taken` empty, so that no item is
/// dropped while the lock is held. The call does not return for as long as
/// the buffer stays empty. A poisoned lock makes it panic.
#[verifier::external_body]
pub(crate) fn wait_to_poll<'a, T>(
    item: &Condvar,
    held: MutexGuard<'a, Buffer<T>>,
    taken: &mut Option<T>,
) -> (still_held: MutexGuard<'a, Buffer<T>>)
    requires
        *old(taken) is None,
    ensures
        *final(taken) is Some,
{
    item.wait_while(held, |buffer| buffer.poll(taken)).unwrap()
}

} // verus!
