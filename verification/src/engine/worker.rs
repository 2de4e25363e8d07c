//! Workers and what they tell the scheduler about themselves.

use crate::engine::schedule::Scheduler;
use crate::engine::task::{Polled, SharedTask};
use crate::engine::waker::Waker;
use crate::utils::std_specs::{guarded, lock, send, try_receive};
use std::sync::atomic::{AtomicBool, Ordering};
use std::sync::mpsc;
use std::sync::{Arc, Mutex};
use std::task::Context;
use vstd::prelude::*;

verus! {

/// What an idle worker announces to the scheduler: a handle that rouses its
/// thread, and the mailbox into which its next task is put.
pub struct WorkerInfo {
    pub t: std::task::Waker,
    pub sender: mpsc::Sender<SharedTask>,
}

/// Decides whether a worker goes on, from the shutdown flag as the worker
/// has just read it: it goes on until shutdown has been asked for.
pub fn goes_on(shutdown_requested: bool) -> (go_on: bool)
    ensures
        go_on == !shutdown_requested,
{
    !shutdown_requested
}

/// What the first half of a round did.
pub struct Announced {
    /// Whether the worker goes on: shutdown had not been asked for.
    pub go_on: bool,
    /// Whether the worker announced itself and let the scheduler pair.
    pub published: bool,
}

/// What the second half of a round did.
pub struct Served {
    /// Whether the worker goes on: shutdown had not been asked for.
    pub go_on: bool,
    /// The report of the poll of the task that was in the mailbox, if there
    /// was one.
    pub polled: Option<Polled>,
}

/// One worker of the pool. A worker lives through rounds: it announces
/// itself, sleeps until it is roused, and then serves the task it finds in
/// its mailbox. The sleeping is left to the thread that owns the worker.
#[verifier::reject_recursive_types(S)]
pub struct Worker<S> where S: Scheduler {
    worker_sender: mpsc::Sender<WorkerInfo>,
    t_sender: mpsc::Sender<SharedTask>,
    t_receiver: mpsc::Receiver<SharedTask>,
    scheduler: Arc<Mutex<S>>,
    shutdown: Arc<AtomicBool>,
}

impl<S> Worker<S> where S: Scheduler + Send + 'static {
    /// The scheduler that this worker serves.
    pub closed spec fn scheduler(&self) -> Arc<Mutex<S>> {
        self.scheduler
    }

    /// The flag by which the worker is told to stop.
    pub closed spec fn shutdown(&self) -> Arc<AtomicBool> {
        self.shutdown
    }

    /// The channel on which the worker announces itself.
    pub closed spec fn worker_sender(&self) -> mpsc::Sender<WorkerInfo> {
        self.worker_sender
    }

    /// A worker with a fresh mailbox.
    pub fn new(
        worker_sender: mpsc::Sender<WorkerInfo>,
        scheduler: Arc<Mutex<S>>,
        shutdown: Arc<AtomicBool>,
    ) -> (worker: Self)
        ensures
            worker.worker_sender() == worker_sender,
            worker.scheduler() == scheduler,
            worker.shutdown() == shutdown,
    {
        let (t_sender, t_receiver) = mpsc::channel();
        Self { worker_sender, t_receiver, t_sender, scheduler, shutdown }
    }

    /// The first half of a round. Unless shutdown has been asked for, the
    /// worker announces itself as idle, with `t` as the handle that rouses
    /// it, and lets the scheduler pair what it can. `false` means that the
    /// worker is to stop; otherwise it is to sleep until roused.
    pub fn announce(&self, t: &std::task::Waker) -> (go_on: bool) {
        self.announce_traced(t).go_on
    }

    /// The first half of a round, with a report of what it did. A worker
    /// that is told to stop announces nothing and leaves the scheduler
    /// alone.
    pub fn announce_traced(&self, t: &std::task::Waker) -> (announced: Announced)
        ensures
            announced.published == announced.go_on,
    {
        let go_on = goes_on(self.shutdown.load(Ordering::Acquire));
        if go_on {
            let _ = send(
                &self.worker_sender,
                WorkerInfo { t: t.clone(), sender: self.t_sender.clone() },
            );
            let mut guard = lock(&self.scheduler);
            let scheduler = guarded(&mut guard);
            scheduler.notify();
        }
        Announced { go_on, published: go_on }
    }

    /// The second half of a round, after the worker has been roused. Unless
    /// shutdown has been asked for, the worker looks into its mailbox
    /// without waiting and polls the task it finds there, if any, with a
    /// wake relay for that task installed. `false` means that the worker is
    /// to stop.
    pub fn serve(&self) -> (go_on: bool) {
        self.serve_traced().go_on
    }

    /// The second half of a round, with a report of what it did. A worker
    /// that is told to stop does not look into its mailbox; one that goes on
    /// polls the task it finds there once.
    pub fn serve_traced(&self) -> (served: Served)
        ensures
            served.polled is Some ==> served.go_on,
            served.polled matches Some(polled) ==> polled.is_report(),
    {
        let go_on = goes_on(self.shutdown.load(Ordering::Acquire));
        let mut polled: Option<Polled> = None;
        if go_on {
            match try_receive(&self.t_receiver) {
                Some(task) => {
                    let relay = Waker::new(self.scheduler.clone(), Arc::clone(&task));
                    let handle = relay.into_waker();
                    let mut context = Context::from_waker(&handle);
                    polled = Some(task.poll_traced(&mut context));
                },
                None => {},
            }
        }
        Served { go_on, polled }
    }
}

} // verus!
