//! First in, first out.

use crate::engine::schedule::Scheduler;
use crate::engine::task::SharedTask;
use crate::engine::worker::WorkerInfo;
use std::collections::VecDeque;
use std::sync::mpsc;
use vstd::prelude::*;

verus! {

/// The queue after `tasks` have been admitted to `queue`, one after the
/// other.
pub open spec fn admit_all(queue: Seq<SharedTask>, tasks: Seq<SharedTask>) -> Seq<SharedTask>
    decreases tasks.len(),
{
    if tasks.len() == 0 {
        queue
    } else {
        admit_all(queue.push(tasks[0]), tasks.skip(1))
    }
}

/// The tasks that come out of `queue` when it is emptied by taking one task
/// after the other, in the order in which they come out.
pub open spec fn take_all(queue: Seq<SharedTask>) -> Seq<SharedTask>
    decreases queue.len(),
{
    if queue.len() == 0 {
        Seq::empty()
    } else {
        seq![queue[0]] + take_all(queue.skip(1))
    }
}

/// Tasks leave the queue in the order in which they were admitted: what is
/// taken from a queue that was empty before `tasks` were admitted is `tasks`.
pub proof fn lemma_first_in_first_out(tasks: Seq<SharedTask>)
    ensures
        take_all(admit_all(Seq::empty(), tasks)) == tasks,
{
    lemma_admit_all_appends(Seq::empty(), tasks);
    assert(Seq::<SharedTask>::empty() + tasks =~= tasks);
    lemma_take_all_is_identity(tasks);
}

/// Admitting `tasks` puts them behind what was queued, in their order.
pub proof fn lemma_admit_all_appends(queue: Seq<SharedTask>, tasks: Seq<SharedTask>)
    ensures
        admit_all(queue, tasks) == queue + tasks,
    decreases tasks.len(),
{
    if tasks.len() == 0 {
        assert(queue + tasks =~= queue);
    } else {
        lemma_admit_all_appends(queue.push(tasks[0]), tasks.skip(1));
        assert(queue.push(tasks[0]) + tasks.skip(1) =~= queue + tasks);
    }
}

/// Emptying a queue yields what was queued, front first.
pub proof fn lemma_take_all_is_identity(queue: Seq<SharedTask>)
    ensures
        take_all(queue) == queue,
    decreases queue.len(),
{
    if queue.len() != 0 {
        lemma_take_all_is_identity(queue.skip(1));
        assert(seq![queue[0]] + queue.skip(1) =~= queue);
    }
}

/// Hands tasks out in the order in which they were admitted.
pub struct Fifo {
    queue: VecDeque<SharedTask>,
    worker_receiver: mpsc::Receiver<WorkerInfo>,
    pending_workers: VecDeque<WorkerInfo>,
}

impl Fifo {
    /// The admitted tasks, the one admitted first in front. This is the
    /// line of the scheduler.
    pub closed spec fn queue(&self) -> Seq<SharedTask> {
        self.queue@
    }

    /// A scheduler with no task admitted and no worker idle, that hears of
    /// workers on `worker_receiver`.
    pub fn new(worker_receiver: mpsc::Receiver<WorkerInfo>) -> (scheduler: Self)
        ensures
            scheduler.queue() == Seq::<SharedTask>::empty(),
            scheduler.idle() == Seq::<WorkerInfo>::empty(),
            scheduler.worker_channel() == worker_receiver,
    {
        Self { queue: VecDeque::new(), worker_receiver, pending_workers: VecDeque::new() }
    }
}

impl Scheduler for Fifo {
    open spec fn line(&self) -> Seq<SharedTask> {
        self.queue()
    }

    closed spec fn idle(&self) -> Seq<WorkerInfo> {
        self.pending_workers@
    }

    closed spec fn worker_channel(&self) -> mpsc::Receiver<WorkerInfo> {
        self.worker_receiver
    }

    /// Admits `task` behind every task admitted before.
    fn register(&mut self, task: SharedTask)
        ensures
            final(self).queue() == old(self).queue().push(task),
    {
        proof {
            vstd::seq_lib::to_multiset_build(self.queue@, task);
        }
        self.queue.push_back(task);
    }

    /// Hands out the task that was admitted first.
    fn take(&mut self) -> (next: Option<SharedTask>) {
        let next = self.queue.pop_front();
        proof {
            if next is Some {
                assert(self.queue@ =~= old(self).queue@.skip(1));
            }
        }
        next
    }

    fn get_pending_workers(&mut self) -> (queue: &mut VecDeque<WorkerInfo>) {
        &mut self.pending_workers
    }

    fn get_worker_receiver(&mut self) -> (receiver: &mut mpsc::Receiver<WorkerInfo>) {
        &mut self.worker_receiver
    }
}

} // verus!
