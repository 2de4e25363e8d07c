//! Schedulers: which admitted task runs next, and on which idle worker.

pub mod deadline;
pub mod fifo;

use crate::engine::task::{state_on_admission, SharedTask};
use crate::engine::worker::WorkerInfo;
use crate::utils::std_specs::{send, try_receive};
use std::collections::VecDeque;
use std::sync::mpsc;
use vstd::prelude::*;

verus! {

/// A decision of the scheduler: `task` goes to `worker`.
pub struct Assignment {
    pub worker: WorkerInfo,
    pub task: SharedTask,
}

/// The tasks of a list of assignments, in the same order.
pub open spec fn tasks_of(pairs: Seq<Assignment>) -> Seq<SharedTask> {
    pairs.map_values(|pair: Assignment| pair.task)
}

/// The workers of a list of assignments, in the same order.
pub open spec fn workers_of(pairs: Seq<Assignment>) -> Seq<WorkerInfo> {
    pairs.map_values(|pair: Assignment| pair.worker)
}

/// A scheduler owns the admitted tasks, the idle workers and the channel on
/// which workers announce themselves. An implementation decides the order in
/// which `take` hands the admitted tasks out; everything else is shared.
pub trait Scheduler {
    /// The tasks that are admitted and not yet handed out, in the order in
    /// which `take` hands them out as long as nothing is admitted in
    /// between.
    spec fn line(&self) -> Seq<SharedTask>;

    /// The workers that wait for a task, the one that has waited longest
    /// first.
    spec fn idle(&self) -> Seq<WorkerInfo>;

    /// The receiving end of the channel on which workers announce that they
    /// are idle.
    spec fn worker_channel(&self) -> mpsc::Receiver<WorkerInfo>;

    /// Admits `task`: the line gains it, at the place that the
    /// implementation gives it.
    fn register(&mut self, task: SharedTask)
        ensures
            final(self).line().to_multiset() == old(self).line().to_multiset().insert(task),
            final(self).idle() == old(self).idle(),
            final(self).worker_channel() == old(self).worker_channel(),
    ;

    /// Removes and returns the task to run next, the first of the line;
    /// `None` exactly when no task is admitted.
    fn take(&mut self) -> (next: Option<SharedTask>)
        ensures
            next == (if old(self).line().len() > 0 {
                Some(old(self).line()[0])
            } else {
                None
            }),
            old(self).line().len() > 0 ==> final(self).line() == old(self).line().skip(1),
            old(self).line().len() == 0 ==> final(self).line() == old(self).line(),
            final(self).idle() == old(self).idle(),
            final(self).worker_channel() == old(self).worker_channel(),
    ;

    /// The queue of idle workers.
    fn get_pending_workers(&mut self) -> (queue: &mut VecDeque<WorkerInfo>)
        ensures
            queue@ == old(self).idle(),
            final(self).idle() == final(queue)@,
            final(self).line() == old(self).line(),
            final(self).worker_channel() == old(self).worker_channel(),
    ;

    /// The scheduler's end of the channel on which workers announce that
    /// they are idle. What the caller leaves in its place is the scheduler's
    /// end from then on.
    fn get_worker_receiver(&mut self) -> (receiver: &mut mpsc::Receiver<WorkerInfo>)
        ensures
            *receiver == old(self).worker_channel(),
            final(self).worker_channel() == *final(receiver),
            final(self).idle() == old(self).idle(),
            final(self).line() == old(self).line(),
    ;

    /// Marks `task` as scheduled, admits it and pairs what can be paired, as
    /// `notify` does: of the tasks admitted, `task` among them, as many are
    /// handed out as there are workers for, and workers that were idle
    /// before are served first, in their order.
    fn schedule(&mut self, task: SharedTask)
        ensures
            final(self).idle().len() == 0 || final(self).line().len() == 0,
            final(self).line().len() <= old(self).line().len() + 1,
            final(self).line().to_multiset().subset_of(
                old(self).line().to_multiset().insert(task),
            ),
            old(self).line().len() + 1 - final(self).line().len() <= old(self).idle().len()
                ==> old(self).idle().skip(
                old(self).line().len() + 1 - final(self).line().len(),
            ).is_prefix_of(final(self).idle()),
            final(self).worker_channel() == old(self).worker_channel(),
    {
        task.set_state(state_on_admission());
        self.register(task);
        proof {
            vstd::seq_lib::to_multiset_len(self.line());
            vstd::seq_lib::to_multiset_len(old(self).line());
            vstd::multiset::lemma_insert_len(old(self).line().to_multiset(), task);
        }
        let ghost admitted = self.line();
        self.notify();
        proof {
            lemma_rest_is_part(admitted, admitted.len() - self.line().len());
        }
    }

    /// Collects the workers that have announced themselves, then hands
    /// admitted tasks to idle workers until one of the two runs out. The
    /// tasks handed out are the first of the line, and what is left of the
    /// line stays in its order. Workers that were idle before are served
    /// first, in their order.
    fn notify(&mut self)
        ensures
            final(self).idle().len() == 0 || final(self).line().len() == 0,
            final(self).line().len() <= old(self).line().len(),
            final(self).line() == old(self).line().skip(
                old(self).line().len() - final(self).line().len(),
            ),
            old(self).line().len() - final(self).line().len() <= old(self).idle().len()
                ==> old(self).idle().skip(
                old(self).line().len() - final(self).line().len(),
            ).is_prefix_of(final(self).idle()),
            final(self).worker_channel() == old(self).worker_channel(),
    {
        self.collect_workers();
        let ghost collected = self.idle();
        let pairs = self.pair_workers();
        proof {
            let served = pairs@.len() as int;
            assert(self.line().len() == old(self).line().len() - served);
            if served <= old(self).idle().len() {
                assert(old(self).idle().skip(served).is_prefix_of(collected.skip(served)));
            }
        }
        deliver(pairs);
    }

    /// Moves the workers that have announced themselves to the back of the
    /// queue of idle workers, in the order of arrival, until none is left
    /// waiting or the queue is as long as a queue can be. How many there are
    /// is up to the workers.
    fn collect_workers(&mut self)
        ensures
            final(self).line() == old(self).line(),
            final(self).worker_channel() == old(self).worker_channel(),
            old(self).idle().is_prefix_of(final(self).idle()),
    {
        while self.get_pending_workers().len() < usize::MAX
            invariant
                self.line() == old(self).line(),
                self.worker_channel() == old(self).worker_channel(),
                old(self).idle().is_prefix_of(self.idle()),
            decreases usize::MAX - self.idle().len(),
        {
            match try_receive(self.get_worker_receiver()) {
                Some(worker) => {
                    self.get_pending_workers().push_back(worker);
                },
                None => {
                    break ;
                },
            }
        }
    }

    /// Pairs idle workers with admitted tasks until one of the two runs out:
    /// the worker that has waited longest gets the first task of the line,
    /// the next worker the next task, and so on. Nothing is delivered yet.
    fn pair_workers(&mut self) -> (pairs: Vec<Assignment>)
        ensures
            pairs@.len() == old(self).idle().len() || pairs@.len() == old(self).line().len(),
            pairs@.len() <= old(self).idle().len(),
            pairs@.len() <= old(self).line().len(),
            workers_of(pairs@) == old(self).idle().take(pairs@.len() as int),
            tasks_of(pairs@) == old(self).line().take(pairs@.len() as int),
            final(self).idle() == old(self).idle().skip(pairs@.len() as int),
            final(self).line() == old(self).line().skip(pairs@.len() as int),
            final(self).worker_channel() == old(self).worker_channel(),
    {
        let mut pairs: Vec<Assignment> = Vec::new();
        proof {
            assert(workers_of(pairs@) =~= self.idle().take(0));
            assert(self.idle() =~= self.idle().skip(0));
            assert(tasks_of(pairs@) =~= self.line().take(0));
            assert(self.line() =~= self.line().skip(0));
        }
        loop
            invariant
                pairs@.len() <= old(self).idle().len(),
                pairs@.len() <= old(self).line().len(),
                workers_of(pairs@) == old(self).idle().take(pairs@.len() as int),
                tasks_of(pairs@) == old(self).line().take(pairs@.len() as int),
                self.idle() == old(self).idle().skip(pairs@.len() as int),
                self.line() == old(self).line().skip(pairs@.len() as int),
                self.worker_channel() == old(self).worker_channel(),
            ensures
                pairs@.len() <= old(self).idle().len(),
                pairs@.len() <= old(self).line().len(),
                workers_of(pairs@) == old(self).idle().take(pairs@.len() as int),
                tasks_of(pairs@) == old(self).line().take(pairs@.len() as int),
                self.idle() == old(self).idle().skip(pairs@.len() as int),
                self.line() == old(self).line().skip(pairs@.len() as int),
                self.worker_channel() == old(self).worker_channel(),
                self.idle().len() == 0 || self.line().len() == 0,
            decreases self.idle().len(),
        {
            let ghost before = pairs@;
            let ghost waiting = self.idle();
            let first = self.get_pending_workers().pop_front();
            match first {
                Some(worker) => {
                    let next = self.take();
                    match next {
                        Some(task) => {
                            pairs.push(Assignment { worker, task });
                            proof {
                                assert(workers_of(pairs@) =~= workers_of(before).push(worker));
                                assert(workers_of(pairs@) =~= old(self).idle().take(
                                    pairs@.len() as int,
                                ));
                                assert(self.idle() =~= old(self).idle().skip(
                                    pairs@.len() as int,
                                ));
                                assert(tasks_of(pairs@) =~= tasks_of(before).push(task));
                                assert(tasks_of(pairs@) =~= old(self).line().take(
                                    pairs@.len() as int,
                                ));
                                assert(self.line() =~= old(self).line().skip(
                                    pairs@.len() as int,
                                ));
                            }
                        },
                        None => {
                            self.get_pending_workers().push_front(worker);
                            proof {
                                assert(self.idle() =~= waiting);
                            }
                            break ;
                        },
                    }
                },
                None => {
                    break ;
                },
            }
        }
        pairs
    }
}

/// The last values of a line are some of its values.
proof fn lemma_rest_is_part(line: Seq<SharedTask>, served: int)
    requires
        0 <= served <= line.len(),
    ensures
        line.skip(served).to_multiset().subset_of(line.to_multiset()),
{
    assert(line =~= line.take(served) + line.skip(served));
    vstd::seq_lib::lemma_multiset_commutative(line.take(served), line.skip(served));
    assert forall|task: SharedTask|
        line.skip(served).to_multiset().count(task) <= line.to_multiset().count(task) by {
        broadcast use vstd::multiset::group_multiset_axioms;

    }
}

/// A boxed scheduler is the scheduler in the box.
impl<S: Scheduler + ?Sized> Scheduler for Box<S> {
    open spec fn line(&self) -> Seq<SharedTask> {
        (**self).line()
    }

    open spec fn idle(&self) -> Seq<WorkerInfo> {
        (**self).idle()
    }

    open spec fn worker_channel(&self) -> mpsc::Receiver<WorkerInfo> {
        (**self).worker_channel()
    }

    fn register(&mut self, task: SharedTask) {
        (**self).register(task)
    }

    fn take(&mut self) -> (next: Option<SharedTask>) {
        (**self).take()
    }

    fn get_pending_workers(&mut self) -> (queue: &mut VecDeque<WorkerInfo>) {
        (**self).get_pending_workers()
    }

    fn get_worker_receiver(&mut self) -> (receiver: &mut mpsc::Receiver<WorkerInfo>) {
        (**self).get_worker_receiver()
    }
}

/// Carries out a list of assignments, in order: each task is put into the
/// mailbox of its worker, and the worker is roused.
fn deliver(pairs: Vec<Assignment>) {
    for pair in pairs {
        let _ = send(&pair.worker.sender, pair.task);
        pair.worker.t.wake_by_ref();
    }
}

} // verus!
