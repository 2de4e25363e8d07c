//! The standard-library items the runtime is built on.
//!
//! Verus believes what this file says of the standard library without
//! proof. Most declarations only make a type or a function known and claim
//! nothing about it, because what these functions return depends on what
//! other threads do.

use std::future::Future;
use std::pin::Pin;
use std::sync::{Mutex, MutexGuard};
use std::task::{Context, Poll};
use vstd::prelude::*;

verus! {

/// `std::sync::Mutex`, opaque: a value of it says nothing about what it guards.
#[verifier::external_type_specification]
#[verifier::external_body]
#[verifier::reject_recursive_types(T)]
pub struct ExMutex<T: ?Sized>(Mutex<T>);

/// `std::sync::MutexGuard`, opaque.
#[verifier::external_type_specification]
#[verifier::external_body]
#[verifier::reject_recursive_types(T)]
pub struct ExMutexGuard<'a, T: ?Sized + 'a>(MutexGuard<'a, T>);

/// `std::sync::mpsc::Sender`, opaque.
#[verifier::external_type_specification]
#[verifier::external_body]
#[verifier::reject_recursive_types(T)]
pub struct ExSender<T>(std::sync::mpsc::Sender<T>);

/// `std::sync::mpsc::Receiver`, opaque.
#[verifier::external_type_specification]
#[verifier::external_body]
#[verifier::reject_recursive_types(T)]
pub struct ExReceiver<T>(std::sync::mpsc::Receiver<T>);

/// `std::pin::Pin`, opaque.
#[verifier::external_type_specification]
#[verifier::external_body]
#[verifier::reject_recursive_types(P)]
pub struct ExPin<P>(Pin<P>);

/// `std::task::Context`, opaque.
#[verifier::external_type_specification]
#[verifier::external_body]
pub struct ExContext<'a>(Context<'a>);

/// `std::task::Waker`, opaque.
#[verifier::external_type_specification]
#[verifier::external_body]
pub struct ExWaker(std::task::Waker);

/// `std::task::Poll`, with its two variants `Ready` and `Pending`.
#[verifier::external_type_specification]
pub struct ExPoll<T>(Poll<T>);

/// `Mutex::new` wraps a value; nothing is claimed of the lock.
pub assume_specification<T>[ Mutex::<T>::new ](value: T) -> Mutex<T>;

/// `Box::pin` moves a value to the heap and pins it there; nothing is claimed
/// of the result.
pub assume_specification<T>[ Box::<T>::pin ](value: T) -> Pin<Box<T>>;

/// `Pin::into_ref` turns a pinned mutable reference into a pinned shared one.
pub assume_specification<'a, T: ?Sized>[ Pin::<&'a mut T>::into_ref ](pin: Pin<&'a mut T>) -> Pin<
    &'a T,
>;

/// `Pin::get_ref` gives the shared reference that a pin holds.
pub assume_specification<'a, T: ?Sized>[ Pin::<&'a T>::get_ref ](pin: Pin<&'a T>) -> &'a T;

/// `std::sync::mpsc::channel` makes a connected pair; nothing is claimed of it.
pub assume_specification<T>[ std::sync::mpsc::channel ]() -> (
    std::sync::mpsc::Sender<T>,
    std::sync::mpsc::Receiver<T>,
);

/// `Waker::wake` signals the task the waker belongs to.
pub assume_specification[ std::task::Waker::wake ](handle: std::task::Waker);

/// `Waker::wake_by_ref` signals the task the waker belongs to and keeps the waker.
pub assume_specification[ std::task::Waker::wake_by_ref ](handle: &std::task::Waker);

/// `Waker::clone` makes another handle; nothing ties it to the first in
/// specifications.
pub assume_specification[ <std::task::Waker as Clone>::clone ](
    handle: &std::task::Waker,
) -> std::task::Waker;

/// `Context::from_waker` makes a context that carries the given waker.
pub assume_specification<'a>[ Context::<'a>::from_waker ](handle: &'a std::task::Waker) -> Context<
    'a,
>;

/// `mpsc::Sender::clone` makes another sending handle for the same channel.
pub assume_specification<T>[ <std::sync::mpsc::Sender<T> as Clone>::clone ](
    sender: &std::sync::mpsc::Sender<T>,
) -> std::sync::mpsc::Sender<T>;

/// `Context::waker` hands out the waker a context carries.
pub assume_specification<'a>[ Context::<'a>::waker ](cx: &Context<'a>) -> &'a std::task::Waker;

/// `Mutex::lock`: blocks until the lock is held. A lock poisoned by a panic
/// elsewhere is taken all the same, so the call never panics.
#[verifier::external_body]
pub(crate) fn lock<T>(mutex: &Mutex<T>) -> (guard: MutexGuard<'_, T>) {
    match mutex.lock() {
        Ok(guard) => guard,
        Err(poisoned) => poisoned.into_inner(),
    }
}

/// `DerefMut::deref_mut` of a `MutexGuard`: the guarded value. Other threads
/// may have changed it since it was last seen, so nothing is claimed of it.
#[verifier::external_body]
pub(crate) fn guarded<'a, 'b, T>(guard: &'a mut MutexGuard<'b, T>) -> (value: &'a mut T) {
    &mut **guard
}

/// `mpsc::Sender::send`: `true` when the value was queued, `false` when the
/// receiving side is gone.
#[verifier::external_body]
pub(crate) fn send<T>(sender: &std::sync::mpsc::Sender<T>, value: T) -> (queued: bool) {
    sender.send(value).is_ok()
}

/// `mpsc::Receiver::try_recv`: a queued value if there is one right now.
/// Whether there is one depends on the sending threads.
#[verifier::external_body]
pub(crate) fn try_receive<T>(receiver: &std::sync::mpsc::Receiver<T>) -> (value: Option<T>) {
    receiver.try_recv().ok()
}

/// `Future::poll` on a pinned box: one attempt to advance the computation.
/// The outcome is the computation's own business. A computation that panics
/// takes the calling thread down with it.
#[verifier::external_body]
pub(crate) fn poll_pinned<F: Future>(future: &mut Pin<Box<F>>, cx: &mut Context<'_>) -> (outcome:
    Poll<F::Output>) {
    future.as_mut().poll(cx)
}

/// The sequence `s` with the values of slots `i` and `j` exchanged.
pub open spec fn swapped<T>(s: Seq<T>, i: int, j: int) -> Seq<T> {
    s.update(i, s[j]).update(j, s[i])
}

/// `<[T]>::swap`: exchanges the values of two slots. It panics when a slot
/// is out of bounds, which `requires` rules out.
pub assume_specification<Item>[ <[Item]>::swap ](slice: &mut [Item], a: usize, b: usize)
    requires
        a < old(slice)@.len(),
        b < old(slice)@.len(),
    ensures
        final(slice)@ == swapped(old(slice)@, a as int, b as int),
;

} // verus!
