//! The parts of the engine that do not own threads.

pub mod schedule;
pub mod task;
pub mod waker;
pub mod worker;

use crate::engine::schedule::Scheduler;
use crate::engine::task::Task;
use crate::utils::channel::{channel, Receiver};
use crate::utils::std_specs::{guarded, lock};
use std::future::Future;
use std::sync::Mutex;
use vstd::prelude::*;

verus! {

/// Submits a computation: wraps it in a task whose value goes into a fresh
/// channel, schedules the task, and returns the receiving half of the
/// channel.
pub fn reserve<S, V, W>(scheduler: &Mutex<S>, task: V, deadline: Option<u64>) -> Receiver<W> where
    S: Scheduler,
    V: Future<Output = W> + Send + 'static,
    W: Clone + Send + Unpin + 'static,
 {
    let (sender, receiver) = channel();
    let task = Task::new(task, sender, deadline);
    let mut guard = lock(scheduler);
    let scheduler = guarded(&mut guard);
    scheduler.schedule(task);
    receiver
}

} // verus!
