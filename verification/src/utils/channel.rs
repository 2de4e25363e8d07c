//! A one-shot channel whose receiving half is a future.

use crate::utils::std_specs::{guarded, lock, send, try_receive};
use std::future::Future;
use std::pin::Pin;
use std::sync::mpsc;
use std::sync::{Arc, Mutex};
use std::task::{Context, Poll, Waker};
use vstd::prelude::*;

verus! {

/// Whether the value of a channel has been sent yet.
pub enum InnerState {
    Pending,
    Ready,
}

/// What the two halves of a channel share besides the value slot.
pub struct InnerContext {
    pub state: InnerState,
    pub waker: Option<Waker>,
}

/// The context as the two halves hold it.
pub type SharedInnerContext = Arc<Mutex<InnerContext>>;

/// The two halves of one channel.
pub type Channel<T> = (Sender<T>, Receiver<T>);

impl InnerContext {
    /// A context of a channel on which nothing has happened.
    pub fn new() -> (context: Self)
        ensures
            context.state is Pending,
            context.waker is None,
    {
        Self { state: InnerState::Pending, waker: None }
    }

    /// Sets the state and leaves the waker alone.
    pub fn set_state(&mut self, state: InnerState)
        ensures
            final(self).state == state,
            final(self).waker == old(self).waker,
    {
        self.state = state;
    }

    /// Records that the value has been sent and hands out the waker that was
    /// waiting for it, if any. The waker leaves the context, so it is fired
    /// at most once.
    pub fn complete(&mut self) -> (waiting: Option<Waker>)
        ensures
            final(self).state is Ready,
            final(self).waker is None,
            waiting == old(self).waker,
    {
        self.set_state(InnerState::Ready);
        self.waker.take()
    }

    /// One look at the context by the consumer: `true` when the value has
    /// been sent. Otherwise `waker` is kept for the sender to fire.
    pub fn observe(&mut self, waker: &Waker) -> (ready: bool)
        ensures
            ready == (old(self).state is Ready),
            final(self).state == old(self).state,
            ready ==> final(self).waker == old(self).waker,
            !ready ==> final(self).waker is Some,
    {
        match self.state {
            InnerState::Pending => {
                self.waker = Some(waker.clone());
                false
            },
            InnerState::Ready => true,
        }
    }
}

/// The sending half. Sending consumes it, so a channel carries one value.
#[verifier::reject_recursive_types(T)]
pub struct Sender<T> where T: Clone {
    sender: mpsc::Sender<T>,
    context: SharedInnerContext,
}

impl<T> Sender<T> where T: Clone {
    /// The context that this half shares with the receiving half.
    pub closed spec fn context(&self) -> SharedInnerContext {
        self.context
    }

    /// The end of the value slot into which this half puts the value.
    pub closed spec fn slot(&self) -> mpsc::Sender<T> {
        self.sender
    }

    /// A sending half made of the sending end of a slot and a context.
    pub fn new(sender: mpsc::Sender<T>, context: SharedInnerContext) -> (half: Self)
        ensures
            half.slot() == sender,
            half.context() == context,
    {
        Self { sender, context }
    }

    /// Puts `val` into the slot, marks the channel ready and, once the
    /// context is unlocked again, fires the waker of a waiting consumer.
    pub fn send(self, val: T) {
        let _ = send(&self.sender, val);
        let waiting = {
            let mut guard = lock(&self.context);
            let context = guarded(&mut guard);
            context.complete()
        };
        match waiting {
            Some(waker) => waker.wake(),
            None => {},
        }
    }
}

/// The receiving half: a future that resolves to the value sent.
#[verifier::reject_recursive_types(T)]
pub struct Receiver<T> where T: Clone {
    receiver: mpsc::Receiver<T>,
    context: SharedInnerContext,
}

impl<T> Receiver<T> where T: Clone {
    /// The context that this half shares with the sending half.
    pub closed spec fn context(&self) -> SharedInnerContext {
        self.context
    }

    /// The end of the value slot from which this half takes the value.
    pub closed spec fn slot(&self) -> mpsc::Receiver<T> {
        self.receiver
    }

    /// A receiving half made of the receiving end of a slot and a context.
    pub fn new(receiver: mpsc::Receiver<T>, shared_context: SharedInnerContext) -> (half: Self)
        ensures
            half.slot() == receiver,
            half.context() == shared_context,
    {
        Self { receiver, context: shared_context }
    }

    /// Sets the state of the shared context, under its lock. The half itself
    /// stays what it is.
    pub fn set_state(&mut self, state: InnerState)
        ensures
            final(self).context() == old(self).context(),
            final(self).slot() == old(self).slot(),
    {
        let mut guard = lock(&self.context);
        let context = guarded(&mut guard);
        context.set_state(state)
    }
}

/// What one poll of the receiving half observed, and what it answers.
pub struct Looked<T> {
    /// Whether the poll found the channel ready.
    pub ready: bool,
    /// Whether the poll took a value out of the slot. It only looks into the
    /// slot if it found the channel ready.
    pub taken: bool,
    /// What the poll answers: the value taken, if one was taken.
    pub outcome: Poll<T>,
}

impl<T> Receiver<T> where T: Clone {
    /// One poll through a shared reference, with a report of what it
    /// observed. While the channel is pending, the waker of `cx` is
    /// installed, or put in the place of the one installed before, and the
    /// answer is `Pending`. Once it is ready, the value is taken from the
    /// slot. A channel carries one value: a poll that comes after the value
    /// has been taken finds the slot empty and answers `Pending`.
    pub fn poll_traced(&self, cx: &mut Context<'_>) -> (looked: Looked<T>)
        ensures
            looked.taken ==> looked.ready,
            looked.outcome is Ready <==> looked.taken,
    {
        let mut guard = lock(&self.context);
        let context = guarded(&mut guard);
        let ready = context.observe(cx.waker());
        let slot = if ready {
            try_receive(&self.receiver)
        } else {
            None
        };
        let taken = slot.is_some();
        Looked { ready, taken, outcome: found(slot) }
    }
}

/// What a poll of the receiving half answers, given what it found in the
/// value slot: the value, if there is one.
pub fn found<T>(slot: Option<T>) -> (outcome: Poll<T>)
    ensures
        outcome == match slot {
            Some(value) => Poll::Ready(value),
            None => Poll::Pending,
        },
{
    match slot {
        Some(value) => Poll::Ready(value),
        None => Poll::Pending,
    }
}

impl<T> Future for Receiver<T> where T: Clone {
    type Output = T;

    /// One poll: the answer of `poll_traced`.
    fn poll(self: Pin<&mut Self>, cx: &mut Context<'_>) -> (outcome: Poll<T>) {
        self.into_ref().get_ref().poll_traced(cx).outcome
    }
}

/// A fresh channel: pending, with no waker installed. The two halves share
/// one context.
pub fn channel<T>() -> (pair: Channel<T>) where T: Clone
    ensures
        pair.0.context() == pair.1.context(),
{
    let (sender, receiver) = mpsc::channel();
    let shared_context = Arc::new(Mutex::new(InnerContext::new()));
    (Sender::new(sender, shared_context.clone()), Receiver::new(receiver, shared_context))
}

} // verus!
