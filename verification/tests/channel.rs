use async_runtime::utils::channel::{channel, found, InnerContext, InnerState, Sender};
use std::future::Future;
use std::pin::Pin;
use std::sync::mpsc;
use std::sync::{Arc, Mutex};
use std::task::{Context, Poll, Wake, Waker};

struct MockWaker(Mutex<i64>);

impl Wake for MockWaker {
    fn wake(self: Arc<Self>) {
        let mut called_cnt = self.0.lock().unwrap();
        *(called_cnt) += 1;
        assert_eq!(*called_cnt, 1);
    }
}

#[test]
fn sender_call_waker() {
    let mock = Arc::new(MockWaker(Mutex::new(0)));
    let waker = Waker::from(mock.clone());
    let mut inner = InnerContext::new();
    inner.waker = Some(waker);
    let (sender, _) = mpsc::channel();
    let sender = Sender::new(sender, Arc::new(Mutex::new(inner)));

    sender.send(());

    assert_eq!(*mock.0.lock().unwrap(), 1);
}

#[test]
fn receiver_return_pending() {
    let (_, receiver) = channel::<()>();

    let mut receiver = Box::pin(receiver);
    let mut context = Context::from_waker(Waker::noop());

    let receiver = receiver.as_mut();
    let res = receiver.poll(&mut context);
    assert_eq!(res, Poll::Pending);
}

#[test]
fn receiver_return_ready() {
    let (sender, receiver) = channel::<i64>();

    let mut receiver = Box::pin(receiver);
    let mut context = Context::from_waker(Waker::noop());

    sender.send(42);

    let receiver = receiver.as_mut();
    let res = receiver.poll(&mut context);
    assert_eq!(res, Poll::Ready(42));
}

struct Bell(Mutex<i64>);

impl Wake for Bell {
    fn wake(self: Arc<Self>) {
        *self.0.lock().unwrap() += 1;
    }
}

#[test]
fn a_new_context_is_pending_and_holds_no_waker() {
    let context = InnerContext::new();
    assert!(matches!(context.state, InnerState::Pending));
    assert!(context.waker.is_none());
}

#[test]
fn complete_hands_the_waker_out_once() {
    let mut context = InnerContext::new();
    assert!(context.complete().is_none());
    assert!(matches!(context.state, InnerState::Ready));

    let mut context = InnerContext::new();
    assert!(!context.observe(Waker::noop()));
    assert!(context.waker.is_some());
    assert!(matches!(context.state, InnerState::Pending));
    assert!(context.complete().is_some());
    assert!(context.waker.is_none());
    assert!(context.complete().is_none());
    assert!(context.observe(Waker::noop()));
    assert!(context.waker.is_none());
}

#[test]
fn set_state_changes_the_state_only() {
    let mut context = InnerContext::new();
    assert!(!context.observe(Waker::noop()));
    context.set_state(InnerState::Ready);
    assert!(matches!(context.state, InnerState::Ready));
    assert!(context.waker.is_some());
    context.set_state(InnerState::Pending);
    assert!(matches!(context.state, InnerState::Pending));
    assert!(context.waker.is_some());
}

#[test]
fn found_turns_a_value_into_ready() {
    assert_eq!(found(Some(5)), Poll::Ready(5));
    assert_eq!(found(None::<i32>), Poll::Pending);
}

#[test]
fn a_channel_yields_its_value_once() {
    let (sender, receiver) = channel::<String>();
    let mut receiver = Box::pin(receiver);
    let mut context = Context::from_waker(Waker::noop());

    assert_eq!(receiver.as_mut().poll(&mut context), Poll::Pending);
    sender.send("value".to_string());
    assert_eq!(receiver.as_mut().poll(&mut context), Poll::Ready("value".to_string()));
    assert_eq!(receiver.as_mut().poll(&mut context), Poll::Pending);
}

#[test]
fn send_fires_the_waker_of_the_last_poll() {
    let first = Arc::new(Bell(Mutex::new(0)));
    let second = Arc::new(Bell(Mutex::new(0)));
    let (sender, receiver) = channel::<i32>();
    let mut receiver = Box::pin(receiver);

    let waker = Waker::from(first.clone());
    let mut context = Context::from_waker(&waker);
    assert_eq!(receiver.as_mut().poll(&mut context), Poll::Pending);
    let waker = Waker::from(second.clone());
    let mut context = Context::from_waker(&waker);
    assert_eq!(receiver.as_mut().poll(&mut context), Poll::Pending);

    sender.send(9);
    assert_eq!(*first.0.lock().unwrap(), 0);
    assert_eq!(*second.0.lock().unwrap(), 1);
    assert_eq!(receiver.as_mut().poll(&mut context), Poll::Ready(9));
    assert_eq!(*second.0.lock().unwrap(), 1);
}

#[test]
fn a_receiver_can_be_marked_ready_by_hand() {
    let (_sender, mut receiver) = channel::<i32>();
    let mut context = Context::from_waker(Waker::noop());
    receiver.set_state(InnerState::Ready);
    // Marked ready, but nothing was sent: there is no value to hand out.
    assert_eq!(Pin::new(&mut receiver).poll(&mut context), Poll::Pending);
}

#[test]
fn send_without_a_receiver_is_harmless() {
    let (sender, receiver) = channel::<i32>();
    drop(receiver);
    sender.send(1);
}

#[test]
fn a_traced_poll_reports_what_it_found() {
    let (sender, receiver) = channel::<i32>();
    let mut context = Context::from_waker(Waker::noop());

    let looked = receiver.poll_traced(&mut context);
    assert!(!looked.ready);
    assert!(!looked.taken);
    assert_eq!(looked.outcome, Poll::Pending);

    sender.send(3);
    let looked = receiver.poll_traced(&mut context);
    assert!(looked.ready);
    assert!(looked.taken);
    assert_eq!(looked.outcome, Poll::Ready(3));

    let looked = receiver.poll_traced(&mut context);
    assert!(looked.ready);
    assert!(!looked.taken);
    assert_eq!(looked.outcome, Poll::Pending);
}
