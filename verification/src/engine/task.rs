//! Tasks and their lifecycle.
//!
//! A task wraps a deferred computation together with a lifecycle state that
//! is shared between the scheduler, the workers and the wake relays. The
//! state lives in an atomic cell, so no specification can say what it holds
//! at a given moment. What is specified instead is the lifecycle itself: the
//! graph of allowed steps, what each operation does to a state it finds, and
//! the laws that follow. Every state that a poll stores is decided by a
//! function whose contract is stated over that lifecycle, and is checked to
//! be an edge of the graph; a poll reports what it observed and stored.

use crate::engine::schedule::deadline::Prioritized;
use crate::utils::channel::Sender;
use crate::utils::std_specs::{guarded, lock, poll_pinned};
use std::future::Future;
use std::pin::Pin;
use std::sync::atomic::{AtomicU8, Ordering};
use std::sync::{Arc, Mutex};
use std::task::{Context, Poll};
use vstd::prelude::*;

verus! {

/// Waiting for a wake-up; not admitted to the scheduler.
pub const PENDING: u8 = 0;

/// Admitted to the scheduler, or on its way to a worker.
pub const SCHEDULED: u8 = 1;

/// Being polled by exactly one worker.
pub const RUNNING: u8 = 2;

/// The computation has produced its value. Terminal.
pub const COMPLETED: u8 = 3;

/// A task as it is passed around: shared by the scheduler, the worker that
/// polls it and its wake relays.
pub type SharedTask = Arc<Task>;

/// The four lifecycle states.
pub open spec fn is_state(state: u8) -> bool {
    state == PENDING || state == SCHEDULED || state == RUNNING || state == COMPLETED
}

/// The lifecycle graph: the changes of state a task may go through.
pub open spec fn can_step(from: u8, to: u8) -> bool {
    ||| from == PENDING && to == SCHEDULED
    ||| from == SCHEDULED && to == RUNNING
    ||| from == RUNNING && to == PENDING
    ||| from == RUNNING && to == COMPLETED
}

/// Whether a wake signal that finds a task in `state` admits it to the
/// scheduler: only a pending task is admitted.
pub open spec fn wake_admits(state: u8) -> bool {
    state == PENDING
}

/// The state in which a wake signal leaves a task that it found in `state`.
pub open spec fn after_wake(state: u8) -> u8 {
    if wake_admits(state) {
        SCHEDULED
    } else {
        state
    }
}

/// Whether a poll that finds a task in `state` runs its computation.
pub open spec fn poll_enters(state: u8) -> bool {
    state == SCHEDULED
}

/// The state in which a poll leaves a task that it found in `state`, when
/// nothing else touches the task meanwhile. `ready` is what the computation
/// reported; it is only asked when the poll enters.
pub open spec fn after_poll(state: u8, ready: bool) -> u8 {
    if !poll_enters(state) {
        state
    } else if ready {
        COMPLETED
    } else {
        PENDING
    }
}

/// The name of a state as a sequence of characters.
pub open spec fn state_label(state: u8) -> Seq<char> {
    if state == PENDING {
        "PENDING"@
    } else if state == SCHEDULED {
        "SCHEDULED"@
    } else if state == RUNNING {
        "RUNNING"@
    } else if state == COMPLETED {
        "COMPLETED"@
    } else {
        "UNKNOWN"@
    }
}

/// The name of a state, for diagnostics; `"UNKNOWN"` for a value that is no
/// state.
pub fn state_name(state: u8) -> (name: &'static str)
    ensures
        name@ == state_label(state),
{
    if state == PENDING {
        "PENDING"
    } else if state == SCHEDULED {
        "SCHEDULED"
    } else if state == RUNNING {
        "RUNNING"
    } else if state == COMPLETED {
        "COMPLETED"
    } else {
        "UNKNOWN"
    }
}

/// Decides for a wake relay whether the state it read calls for admitting
/// the task.
pub fn wake_accepts(state: u8) -> (accepted: bool)
    ensures
        accepted == wake_admits(state),
{
    state == PENDING
}

/// Decides whether a state that has just been read is `SCHEDULED`, the one
/// state in which a poll enters.
pub fn is_scheduled_state(state: u8) -> (scheduled: bool)
    ensures
        scheduled == poll_enters(state),
{
    state == SCHEDULED
}

/// Decides which state a poll puts in the place of `RUNNING` once the
/// computation has reported: `COMPLETED` if it is finished, `PENDING` if it
/// is not.
pub fn state_after_run(finished: bool) -> (next: u8)
    ensures
        next == after_poll(SCHEDULED, finished),
        can_step(RUNNING, next),
{
    if finished {
        COMPLETED
    } else {
        PENDING
    }
}

/// Decides which state a task is given when it is admitted to a scheduler:
/// the one in which a wake leaves a pending task, `SCHEDULED`.
pub fn state_on_admission() -> (next: u8)
    ensures
        next == after_wake(PENDING),
        can_step(PENDING, next),
{
    SCHEDULED
}

/// What one poll observed and did.
pub struct Polled {
    /// Whether the poll found the task `SCHEDULED` and made it `RUNNING`.
    pub entered: bool,
    /// Whether the computation reported that it is finished.
    pub finished: bool,
    /// The state that the poll put in the place of `RUNNING`, if it entered.
    /// `COMPLETED` is stored whatever the state has become; `PENDING` only
    /// takes the place of `RUNNING`.
    pub stored: Option<u8>,
    /// What the poll answers.
    pub outcome: Poll<()>,
}

impl Polled {
    /// What holds of the report of any poll: the computation can only have
    /// finished if the poll entered, the answer follows from the two, and a
    /// state was stored exactly if the poll entered, namely the one that
    /// follows from what the computation reported.
    pub open spec fn is_report(self) -> bool {
        &&& self.finished ==> self.entered
        &&& self.outcome == poll_answer(self.entered, self.finished)
        &&& self.stored == (if self.entered {
            Some(after_poll(SCHEDULED, self.finished))
        } else {
            None
        })
    }
}

/// The answer of a poll: ready exactly when the poll entered and the
/// computation reported that it is finished.
pub open spec fn poll_answer(entered: bool, finished: bool) -> Poll<()> {
    if entered && finished {
        Poll::Ready(())
    } else {
        Poll::Pending
    }
}

/// Decides what a poll answers from what happened during it: whether it
/// entered, and whether the computation finished.
pub fn answer(entered: bool, finished: bool) -> (outcome: Poll<()>)
    ensures
        outcome == poll_answer(entered, finished),
{
    if entered && finished {
        Poll::Ready(())
    } else {
        Poll::Pending
    }
}

/// Every state change that a wake or an undisturbed poll makes follows the
/// lifecycle graph: a wake takes at most one step, a poll that enters takes
/// two, through `RUNNING`, and a poll that does not enter takes none.
pub proof fn lemma_changes_follow_graph(state: u8, ready: bool)
    requires
        is_state(state),
    ensures
        after_wake(state) == state || can_step(state, after_wake(state)),
        poll_enters(state) ==> can_step(state, RUNNING) && can_step(
            RUNNING,
            after_poll(state, ready),
        ),
        !poll_enters(state) ==> after_poll(state, ready) == state,
        is_state(after_wake(state)),
        is_state(after_poll(state, ready)),
{
}

/// `COMPLETED` is terminal: no step leaves it, no wake revives it and no
/// poll enters it.
pub proof fn lemma_completed_is_terminal(to: u8, ready: bool)
    ensures
        !can_step(COMPLETED, to),
        after_wake(COMPLETED) == COMPLETED,
        after_poll(COMPLETED, ready) == COMPLETED,
{
}

/// Firing a wake twice is the same as firing it once: the second signal
/// finds a state that it neither changes nor admits.
pub proof fn lemma_wake_is_idempotent(state: u8)
    ensures
        after_wake(after_wake(state)) == after_wake(state),
        !wake_admits(after_wake(state)),
{
}

/// While one worker runs a computation no second poll can enter: entering
/// needs `SCHEDULED`, the worker that entered left `RUNNING` behind, and a
/// wake does not change `RUNNING`.
pub proof fn lemma_single_runner(state: u8)
    requires
        poll_enters(state),
    ensures
        can_step(state, RUNNING),
        !poll_enters(RUNNING),
        after_wake(RUNNING) == RUNNING,
        forall|other: u8| can_step(other, RUNNING) ==> other == state,
{
}

/// A computation whose concrete type has been forgotten.
trait Deferred: Send {
    /// One attempt to advance; `true` once the computation is finished.
    fn advance(&mut self, cx: &mut Context<'_>) -> (done: bool);
}

/// Runs a computation and, when it finishes, forwards its value into the
/// sending half of a channel.
#[verifier::reject_recursive_types(T)]
#[verifier::reject_recursive_types(U)]
struct Forward<T, U: Clone> {
    inner: Pin<Box<T>>,
    sender: Option<Sender<U>>,
}

impl<T, U> Forward<T, U> where T: Future<Output = U>, U: Clone {
    /// Deals with what one attempt to advance the inner computation has
    /// brought: a value is forwarded, and the computation is finished. The
    /// sender is used up by that, so nothing is ever sent twice.
    fn settle(&mut self, outcome: Poll<U>) -> (done: bool)
        ensures
            done == (outcome is Ready),
            done ==> final(self).sender is None,
            !done ==> final(self).sender == old(self).sender,
            final(self).inner == old(self).inner,
    {
        match outcome {
            Poll::Ready(value) => {
                match self.sender.take() {
                    Some(sender) => sender.send(value),
                    None => {},
                }
                true
            },
            Poll::Pending => false,
        }
    }
}

impl<T, U> Deferred for Forward<T, U> where
    T: Future<Output = U> + Send + 'static,
    U: Clone + Unpin + Send + 'static,
 {
    /// One attempt to advance the inner computation. The attempt that
    /// finishes it forwards the value and uses the sender up; any other
    /// leaves the sender where it is. A computation that has finished is
    /// not polled again: with the sender used up, the answer is that it is
    /// finished, and nothing is touched.
    fn advance(&mut self, cx: &mut Context<'_>) -> (done: bool)
        ensures
            done ==> final(self).sender is None,
            !done ==> final(self).sender == old(self).sender,
            old(self).sender is None ==> done && final(self).inner == old(self).inner,
    {
        if self.sender.is_none() {
            return true;
        }
        let outcome = poll_pinned(&mut self.inner, cx);
        self.settle(outcome)
    }
}

/// A deferred computation together with its lifecycle state and its
/// deadline. The computation is behind a lock of its own, so that the worker
/// that polls it can change it through a shared reference.
pub struct Task {
    inner: Mutex<Box<dyn Deferred>>,
    state: AtomicU8,
    deadline: Option<u64>,
}

impl Task {
    /// The deadline the task was created with.
    pub closed spec fn deadline(&self) -> Option<u64> {
        self.deadline
    }

    /// A new task, in state `PENDING`, that runs `inner` and forwards its
    /// value into `sender`.
    pub fn new<T, U>(inner: T, sender: Sender<U>, deadline: Option<u64>) -> (task: SharedTask) where
        T: Future<Output = U> + Send + 'static,
        U: Clone + Unpin + Send + 'static,

        ensures
            task.deadline() == deadline,
    {
        let forward = Forward { inner: Box::pin(inner), sender: Some(sender) };
        Arc::new(Self { inner: Mutex::new(Box::new(forward)), state: AtomicU8::new(PENDING), deadline })
    }

    /// Stores `val` as the state, whatever the state was, with release
    /// ordering.
    pub fn set_state(&self, val: u8) {
        self.state.store(val, Ordering::Release);
    }

    /// The state at the moment of the call, read with acquire ordering. It
    /// may have changed by the time the caller looks at it.
    pub fn get_state(&self) -> u8 {
        self.state.load(Ordering::Acquire)
    }

    /// Whether the state was `SCHEDULED` at the moment of the call.
    pub fn is_scheduled(&self) -> bool {
        is_scheduled_state(self.get_state())
    }

    /// Moves the task from `from` to `to` if it is in `from` right now, in
    /// one atomic step; `true` when it did. Only steps of the lifecycle graph
    /// can be asked for.
    fn transition(&self, from: u8, to: u8) -> (moved: bool)
        requires
            can_step(from, to),
    {
        self.state.compare_exchange(from, to, Ordering::Release, Ordering::Acquire).is_ok()
    }

    /// Stores `to` as the state, whatever the state has become, and returns
    /// what it stored. Only steps of the lifecycle graph can be asked for.
    fn put(&self, from: u8, to: u8) -> (stored: u8)
        requires
            can_step(from, to),
        ensures
            stored == to,
    {
        self.state.store(to, Ordering::Release);
        to
    }

    /// Puts `to` in the place of `from` if the task is in `from` right now,
    /// and returns what it tried to store. Only steps of the lifecycle graph
    /// can be asked for.
    fn put_in_place(&self, from: u8, to: u8) -> (stored: u8)
        requires
            can_step(from, to),
        ensures
            stored == to,
    {
        let _ = self.transition(from, to);
        to
    }

    /// Ends the run of a poll that has entered: puts the state that follows
    /// from what the computation reported in the place of `RUNNING`, and
    /// returns that state.
    fn leave(&self, finished: bool) -> (stored: u8)
        ensures
            stored == after_poll(SCHEDULED, finished),
    {
        let next = state_after_run(finished);
        if finished {
            self.put(RUNNING, next)
        } else {
            self.put_in_place(RUNNING, next)
        }
    }

    /// One poll by a worker, with a report of what it observed and did.
    /// Unless the task is `SCHEDULED` the computation is not touched,
    /// nothing is stored and the answer is `Pending`. Otherwise the task is
    /// `RUNNING` while the computation is advanced once; then `COMPLETED` is
    /// stored if that finished the computation, and otherwise `PENDING`
    /// takes the place of `RUNNING`, unless a wake has moved the task on
    /// meanwhile.
    pub fn poll_traced(&self, cx: &mut Context<'_>) -> (polled: Polled)
        ensures
            polled.is_report(),
            polled.finished ==> polled.entered,
            polled.outcome == poll_answer(polled.entered, polled.finished),
            polled.stored == (if polled.entered {
                Some(after_poll(SCHEDULED, polled.finished))
            } else {
                None
            }),
    {
        let entered = self.transition(SCHEDULED, RUNNING);
        let mut finished = false;
        let mut stored: Option<u8> = None;
        if entered {
            let mut guard = lock(&self.inner);
            let computation = guarded(&mut guard);
            finished = computation.advance(cx);
            stored = Some(self.leave(finished));
        }
        Polled { entered, finished, stored, outcome: answer(entered, finished) }
    }

    /// One poll by a worker: the answer of `poll_traced`.
    pub fn poll(&self, cx: &mut Context<'_>) -> (outcome: Poll<()>) {
        self.poll_traced(cx).outcome
    }
}

/// Tasks are ordered by deadline alone: an earlier deadline is more urgent,
/// and a task without a deadline is more urgent than any task with one.
impl Prioritized for SharedTask {
    open spec fn rank(&self) -> int {
        match self.deadline() {
            Some(deadline) => deadline + 1,
            None => 0,
        }
    }

    fn precedes(&self, other: &Self) -> (before: bool) {
        match (self.deadline, other.deadline) {
            (Some(mine), Some(theirs)) => mine < theirs,
            (None, Some(_)) => true,
            (_, None) => false,
        }
    }
}

} // verus!
