//! The wake relay: what a computation fires when it can make progress.

use crate::engine::schedule::Scheduler;
use crate::engine::task::{wake_accepts, SharedTask};
use crate::utils::std_specs::{guarded, lock};
use std::sync::{Arc, Mutex};
use std::task::Wake;
use vstd::prelude::*;

verus! {

/// Brings a task back to its scheduler when the task's computation signals
/// that it can go on.
#[verifier::reject_recursive_types(T)]
pub struct Waker<T> where T: Scheduler {
    scheduler: Arc<Mutex<T>>,
    task: SharedTask,
}

impl<T> Waker<T> where T: Scheduler {
    /// The task that this relay brings back.
    pub closed spec fn task(&self) -> SharedTask {
        self.task
    }

    /// The scheduler to which this relay brings its task back.
    pub closed spec fn scheduler(&self) -> Arc<Mutex<T>> {
        self.scheduler
    }

    /// A relay that brings `task` back to `schedule`.
    pub fn new(schedule: Arc<Mutex<T>>, task: SharedTask) -> (relay: Self)
        ensures
            relay.scheduler() == schedule,
            relay.task() == task,
    {
        Self { scheduler: schedule, task }
    }
}

impl<T> Waker<T> where T: Scheduler + Send + 'static {
    /// `std::task::Waker::from`: the relay in the form in which a computation
    /// is handed its wake handle. Firing that handle calls `wake` below.
    #[verifier::external_body]
    pub(crate) fn into_waker(self) -> (handle: std::task::Waker) {
        std::task::Waker::from(Arc::new(self))
    }
}

impl<T> Wake for Waker<T> where T: Scheduler {
    /// One wake signal. A task that is pending is scheduled again. In any
    /// other state nothing happens: a scheduled task is queued already, a
    /// running task is looked after by the poll that runs it, and a
    /// completed task stays completed.
    fn wake(self: Arc<Self>) {
        let state = self.task.get_state();
        if wake_accepts(state) {
            let mut guard = lock(&self.scheduler);
            let scheduler = guarded(&mut guard);
            scheduler.schedule(Arc::clone(&self.task));
        }
    }
}

} // verus!
