use async_runtime::engine::schedule::deadline::Prioritized;
use async_runtime::engine::task::{
    answer, is_scheduled_state, state_after_run, state_name, state_on_admission, wake_accepts,
    Task, COMPLETED, PENDING, RUNNING, SCHEDULED,
};
use async_runtime::utils::channel::channel;
use std::future::Future;
use std::pin::Pin;
use std::sync::atomic::{AtomicUsize, Ordering};
use std::sync::Arc;
use std::task::{Context, Poll, Waker};

/// Counts its polls; pending for the first `pending` of them, then ready
/// with the number of polls so far.
struct Probe {
    pending: usize,
    polls: Arc<AtomicUsize>,
}

impl Future for Probe {
    type Output = usize;
    fn poll(self: Pin<&mut Self>, _cx: &mut Context<'_>) -> Poll<usize> {
        let so_far = self.polls.fetch_add(1, Ordering::SeqCst) + 1;
        if so_far > self.pending {
            Poll::Ready(so_far)
        } else {
            Poll::Pending
        }
    }
}

fn probe(pending: usize) -> (Probe, Arc<AtomicUsize>) {
    let polls = Arc::new(AtomicUsize::new(0));
    (Probe { pending, polls: polls.clone() }, polls)
}

#[test]
fn states_have_their_values_and_names() {
    assert_eq!((PENDING, SCHEDULED, RUNNING, COMPLETED), (0, 1, 2, 3));
    assert_eq!(state_name(PENDING), "PENDING");
    assert_eq!(state_name(SCHEDULED), "SCHEDULED");
    assert_eq!(state_name(RUNNING), "RUNNING");
    assert_eq!(state_name(COMPLETED), "COMPLETED");
    assert_eq!(state_name(4), "UNKNOWN");
    assert_eq!(state_name(255), "UNKNOWN");
}

#[test]
fn only_a_pending_task_is_accepted_by_a_wake() {
    assert!(wake_accepts(PENDING));
    assert!(!wake_accepts(SCHEDULED));
    assert!(!wake_accepts(RUNNING));
    assert!(!wake_accepts(COMPLETED));
    assert!(!wake_accepts(17));
}

#[test]
fn only_the_scheduled_state_is_scheduled() {
    assert!(is_scheduled_state(SCHEDULED));
    assert!(!is_scheduled_state(PENDING));
    assert!(!is_scheduled_state(RUNNING));
    assert!(!is_scheduled_state(COMPLETED));
    assert!(!is_scheduled_state(200));
}

#[test]
fn a_poll_answers_ready_only_if_it_entered_and_finished() {
    assert_eq!(answer(true, true), Poll::Ready(()));
    assert_eq!(answer(true, false), Poll::Pending);
    assert_eq!(answer(false, true), Poll::Pending);
    assert_eq!(answer(false, false), Poll::Pending);
}

#[test]
fn a_new_task_is_pending() {
    let (future, _) = probe(0);
    let (sender, _receiver) = channel();
    let task = Task::new(future, sender, Some(5));
    assert_eq!(task.get_state(), PENDING);
    assert!(!task.is_scheduled());
}

#[test]
fn set_state_stores_what_it_is_given() {
    let (future, _) = probe(0);
    let (sender, _receiver) = channel();
    let task = Task::new(future, sender, None);
    for state in [SCHEDULED, RUNNING, COMPLETED, PENDING] {
        task.set_state(state);
        assert_eq!(task.get_state(), state);
        assert_eq!(task.is_scheduled(), state == SCHEDULED);
    }
}

#[test]
fn a_poll_touches_the_computation_only_if_the_task_is_scheduled() {
    for state in [PENDING, RUNNING, COMPLETED] {
        let (future, polls) = probe(0);
        let (sender, _receiver) = channel();
        let task = Task::new(future, sender, None);
        task.set_state(state);
        let mut cx = Context::from_waker(Waker::noop());
        assert_eq!(task.poll(&mut cx), Poll::Pending);
        assert_eq!(polls.load(Ordering::SeqCst), 0);
        assert_eq!(task.get_state(), state);
    }
}

#[test]
fn a_poll_that_finishes_completes_the_task_and_sends_the_value() {
    let (future, polls) = probe(0);
    let (sender, receiver) = channel();
    let task = Task::new(future, sender, None);
    task.set_state(SCHEDULED);
    let mut cx = Context::from_waker(Waker::noop());
    assert_eq!(task.poll(&mut cx), Poll::Ready(()));
    assert_eq!(task.get_state(), COMPLETED);
    assert_eq!(polls.load(Ordering::SeqCst), 1);
    let mut receiver = Box::pin(receiver);
    assert_eq!(receiver.as_mut().poll(&mut cx), Poll::Ready(1));
}

#[test]
fn a_poll_that_does_not_finish_leaves_the_task_pending() {
    let (future, polls) = probe(2);
    let (sender, receiver) = channel();
    let task = Task::new(future, sender, None);
    let mut cx = Context::from_waker(Waker::noop());
    let mut receiver = Box::pin(receiver);

    task.set_state(SCHEDULED);
    assert_eq!(task.poll(&mut cx), Poll::Pending);
    assert_eq!(task.get_state(), PENDING);
    assert_eq!(receiver.as_mut().poll(&mut cx), Poll::Pending);

    // Without being scheduled again the task is not polled again.
    assert_eq!(task.poll(&mut cx), Poll::Pending);
    assert_eq!(polls.load(Ordering::SeqCst), 1);

    task.set_state(SCHEDULED);
    assert_eq!(task.poll(&mut cx), Poll::Pending);
    task.set_state(SCHEDULED);
    assert_eq!(task.poll(&mut cx), Poll::Ready(()));
    assert_eq!(task.get_state(), COMPLETED);
    assert_eq!(polls.load(Ordering::SeqCst), 3);
    assert_eq!(receiver.as_mut().poll(&mut cx), Poll::Ready(3));
}

#[test]
fn a_completed_task_is_never_polled_again() {
    let (future, polls) = probe(0);
    let (sender, _receiver) = channel();
    let task = Task::new(future, sender, None);
    let mut cx = Context::from_waker(Waker::noop());
    task.set_state(SCHEDULED);
    assert_eq!(task.poll(&mut cx), Poll::Ready(()));
    assert_eq!(task.poll(&mut cx), Poll::Pending);
    assert_eq!(task.poll(&mut cx), Poll::Pending);
    assert_eq!(polls.load(Ordering::SeqCst), 1);
    assert_eq!(task.get_state(), COMPLETED);
}

#[test]
fn tasks_are_ordered_by_deadline_alone() {
    let make = |deadline: Option<u64>| {
        let (future, _) = probe(0);
        let (sender, _receiver) = channel();
        Task::new(future, sender, deadline)
    };
    let early = make(Some(1000));
    let late = make(Some(2000));
    let also_late = make(Some(2000));
    let zero = make(Some(0));
    let none = make(None);
    let also_none = make(None);

    assert!(early.precedes(&late));
    assert!(!late.precedes(&early));
    assert!(!late.precedes(&also_late));
    assert!(!also_late.precedes(&late));
    assert!(!early.precedes(&early));

    assert!(none.precedes(&early));
    assert!(none.precedes(&zero));
    assert!(!zero.precedes(&none));
    assert!(!none.precedes(&also_none));

    let top = make(Some(u64::MAX));
    assert!(late.precedes(&top));
    assert!(!top.precedes(&late));
    assert!(!top.precedes(&top));
}

#[test]
fn integers_are_ordered_by_value() {
    assert!(3i32.precedes(&5));
    assert!(!5i32.precedes(&3));
    assert!(!5i32.precedes(&5));
    assert!((-1i32).precedes(&0));
    assert!(i32::MIN.precedes(&i32::MAX));
    assert!(0u64.precedes(&u64::MAX));
    assert!(!u64::MAX.precedes(&u64::MAX));
}

#[test]
fn a_run_ends_completed_or_pending() {
    assert_eq!(state_after_run(true), COMPLETED);
    assert_eq!(state_after_run(false), PENDING);
}

#[test]
fn an_admitted_task_is_scheduled() {
    assert_eq!(state_on_admission(), SCHEDULED);
}

#[test]
fn a_poll_that_does_not_enter_reports_nothing_stored() {
    for state in [PENDING, RUNNING, COMPLETED] {
        let (future, polls) = probe(0);
        let (sender, _receiver) = channel();
        let task = Task::new(future, sender, None);
        task.set_state(state);
        let mut cx = Context::from_waker(Waker::noop());
        let polled = task.poll_traced(&mut cx);
        assert!(!polled.entered);
        assert!(!polled.finished);
        assert_eq!(polled.stored, None);
        assert_eq!(polled.outcome, Poll::Pending);
        assert_eq!(polls.load(Ordering::SeqCst), 0);
        assert_eq!(task.get_state(), state);
    }
}

#[test]
fn a_poll_that_enters_reports_what_it_stored() {
    let (future, _) = probe(1);
    let (sender, _receiver) = channel();
    let task = Task::new(future, sender, None);
    let mut cx = Context::from_waker(Waker::noop());

    task.set_state(SCHEDULED);
    let polled = task.poll_traced(&mut cx);
    assert!(polled.entered);
    assert!(!polled.finished);
    assert_eq!(polled.stored, Some(PENDING));
    assert_eq!(polled.outcome, Poll::Pending);
    assert_eq!(task.get_state(), PENDING);

    task.set_state(SCHEDULED);
    let polled = task.poll_traced(&mut cx);
    assert!(polled.entered);
    assert!(polled.finished);
    assert_eq!(polled.stored, Some(COMPLETED));
    assert_eq!(polled.outcome, Poll::Ready(()));
    assert_eq!(task.get_state(), COMPLETED);
}

#[test]
fn a_finished_computation_is_not_polled_again_when_its_task_is_scheduled_again() {
    let (future, polls) = probe(0);
    let (sender, receiver) = channel();
    let task = Task::new(future, sender, None);
    let mut cx = Context::from_waker(Waker::noop());

    task.set_state(SCHEDULED);
    assert_eq!(task.poll(&mut cx), Poll::Ready(()));
    assert_eq!(polls.load(Ordering::SeqCst), 1);

    task.set_state(SCHEDULED);
    let polled = task.poll_traced(&mut cx);
    assert!(polled.entered);
    assert!(polled.finished);
    assert_eq!(polled.stored, Some(COMPLETED));
    assert_eq!(polled.outcome, Poll::Ready(()));
    assert_eq!(polls.load(Ordering::SeqCst), 1);
    assert_eq!(task.get_state(), COMPLETED);

    // The value was sent once.
    let mut receiver = Box::pin(receiver);
    assert_eq!(receiver.as_mut().poll(&mut cx), Poll::Ready(1));
    assert_eq!(receiver.as_mut().poll(&mut cx), Poll::Pending);
}
