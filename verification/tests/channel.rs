use oneshot_broadcast::{Channel, Closed, InnerChannel};
use std::future::poll_fn;
use std::sync::atomic::{AtomicUsize, Ordering};
use std::sync::Arc;
use std::task::{Context, Poll, Wake, Waker};

struct CountingWaker {
    wakes: AtomicUsize,
}

impl Wake for CountingWaker {
    fn wake(self: Arc<Self>) {
        self.wakes.fetch_add(1, Ordering::SeqCst);
    }
}

fn counting_waker() -> (Arc<CountingWaker>, Waker) {
    let counter = Arc::new(CountingWaker { wakes: AtomicUsize::new(0) });
    let waker = Waker::from(counter.clone());
    (counter, waker)
}

#[test]
fn test_send() {
    let channel = Channel::new();

    assert!(channel.send(1).is_ok());
    assert!(channel.send(2).is_err());

    let mut fut = channel.clone().into_recv();
    let value = futures::executor::block_on(poll_fn(|cx| fut.poll(cx))).unwrap();
    assert_eq!(*value.get(), 1);
    let mut fut = channel.clone().into_recv();
    futures::executor::block_on(poll_fn(|cx| fut.poll(cx))).unwrap();
    assert_eq!(channel.get_value().unwrap().unwrap(), &1);
}

#[test]
fn test_listener() {
    let channel = Channel::new();
    let inner = channel.clone().into_inner();
    let any_channel = inner.as_any();

    let (counter, waker) = counting_waker();
    let mut cx = Context::from_waker(&waker);
    let mut fut = any_channel.recv();
    assert!(fut.poll(&mut cx).is_pending());

    channel.send(1).ok();
    assert_eq!(counter.wakes.load(Ordering::SeqCst), 1);

    assert_eq!(fut.poll(&mut cx), Poll::Ready(Ok(())));
    any_channel.get().unwrap().unwrap();
}

#[test]
fn test_drop_sender() {
    let channel = Channel::<()>::new();
    let channel2 = channel.clone();
    drop(channel);
    channel2.send(()).unwrap();
    let mut fut = channel2.into_recv();
    assert!(futures::executor::block_on(poll_fn(|cx| fut.poll(cx))).is_ok());
}

#[test]
fn test_send_while_receiving() {
    let channel = Channel::new();
    let channel2 = channel.clone();

    let (counter, waker) = counting_waker();
    let mut cx = Context::from_waker(&waker);
    let mut fut = channel.recv();
    assert!(fut.poll(&mut cx).is_pending());
    assert_eq!(counter.wakes.load(Ordering::SeqCst), 0);

    channel2.send(()).ok();
    assert_eq!(counter.wakes.load(Ordering::SeqCst), 1);
    assert!(matches!(fut.poll(&mut cx), Poll::Ready(Ok(()))));
}

#[test]
fn test_lifetime() {
    let channel = Channel::new();
    let channel2 = channel.clone();

    channel.send(1).ok();

    {
        let receiver = channel2.clone();
        let mut fut = receiver.recv();
        let val = futures::executor::block_on(poll_fn(|cx| fut.poll(cx))).unwrap();
        assert_eq!(val, &1);
        drop(fut);
        drop(receiver);
    }

    {
        let receiver = channel2.clone();
        let mut fut = receiver.recv();
        let fut_ref = &mut fut;
        let val = futures::executor::block_on(poll_fn(|cx| fut_ref.poll(cx))).unwrap();
        assert_eq!(val, &1);
        drop(fut);
        drop(receiver);
    }
}

#[test]
fn close_before_send_reports_closed() {
    let mut channel = Channel::<u32>::new();
    assert_eq!(channel.get_value(), None);
    assert!(channel.close());
    assert!(!channel.close());
    assert_eq!(channel.get_value(), Some(Err(Closed)));
    assert_eq!(channel.send(7), Err(7));
    let mut fut = channel.into_recv();
    let mut cx = Context::from_waker(Waker::noop());
    assert!(matches!(fut.poll(&mut cx), Poll::Ready(Err(Closed))));
    assert!(!fut.is_terminated());
}

#[test]
fn close_after_send_fails() {
    let mut channel = Channel::new();
    assert_eq!(channel.send(5), Ok(()));
    assert!(!channel.close());
    assert_eq!(channel.get_value(), Some(Ok(&5)));
}

#[test]
fn second_send_returns_its_value() {
    let channel = Channel::new();
    assert_eq!(channel.send(String::from("first")), Ok(()));
    assert_eq!(channel.send(String::from("second")), Err(String::from("second")));
    assert_eq!(channel.get_value(), Some(Ok(&String::from("first"))));
}

#[test]
fn close_wakes_waiting_receivers() {
    let mut channel = Channel::<u8>::new();
    let (counter, waker) = counting_waker();
    let mut cx = Context::from_waker(&waker);
    let other = channel.clone();
    let mut fut_a = other.recv();
    let mut fut_b = other.recv();
    assert!(fut_a.poll(&mut cx).is_pending());
    assert!(fut_b.poll(&mut cx).is_pending());
    assert!(channel.close());
    assert_eq!(counter.wakes.load(Ordering::SeqCst), 2);
    assert!(matches!(fut_a.poll(&mut cx), Poll::Ready(Err(Closed))));
    assert!(matches!(fut_b.poll(&mut cx), Poll::Ready(Err(Closed))));
}

#[test]
fn repeated_poll_keeps_one_registration() {
    let channel = Channel::<u8>::new();
    let (counter, waker) = counting_waker();
    let mut cx = Context::from_waker(&waker);
    let mut fut = channel.recv();
    assert!(fut.poll(&mut cx).is_pending());
    assert!(fut.poll(&mut cx).is_pending());
    assert!(fut.poll(&mut cx).is_pending());
    channel.send(3).unwrap();
    assert_eq!(counter.wakes.load(Ordering::SeqCst), 1);
}

#[test]
fn into_value_needs_the_value() {
    let channel = Channel::new();
    let channel = match channel.into_value() {
        Ok(_) => panic!("no value was sent"),
        Err(channel) => channel,
    };
    channel.send(9u64).unwrap();
    let value = match channel.clone().into_value() {
        Ok(value) => value,
        Err(_) => panic!("the value was sent"),
    };
    assert_eq!(*value, 9);
    assert_eq!(*value.get(), 9);
    assert!(value == 9);
    assert!(value.clone() == value);
    assert!(value < 10);
    assert_eq!(value.channel().get_value(), Some(Ok(&9)));
}

#[test]
fn ref_count_counts_handles() {
    let channel = Channel::<u8>::new();
    assert_eq!(channel.ref_count(), 1);
    let other = channel.clone();
    assert_eq!(channel.ref_count(), 2);
    drop(other);
    assert_eq!(channel.ref_count(), 1);
}

#[test]
fn take_reopens_the_channel() {
    let mut inner = InnerChannel::new();
    assert_eq!(inner.take(), None);
    inner.send(4).unwrap();
    assert!(inner.contains_value());
    assert_eq!(inner.take(), Some(4));
    assert!(!inner.contains_value());
    assert_eq!(inner.get(), None);
    inner.send(6).unwrap();
    assert_eq!(inner.get(), Some(Ok(&6)));
}

#[test]
fn released_receiver_frees_its_slot() {
    let channel = Channel::<u8>::new();
    let (counter, waker) = counting_waker();
    let mut cx = Context::from_waker(&waker);
    let mut fut = channel.clone().into_recv();
    assert!(fut.poll(&mut cx).is_pending());
    fut.release();
    assert!(fut.is_terminated());
    channel.send(1).unwrap();
    assert_eq!(counter.wakes.load(Ordering::SeqCst), 0);
}

#[test]
fn any_receiver_clone_starts_unregistered() {
    let channel = Channel::<u8>::new();
    let inner = channel.clone().into_inner();
    let (counter, waker) = counting_waker();
    let mut cx = Context::from_waker(&waker);
    let mut fut = inner.as_any().recv();
    assert!(fut.poll(&mut cx).is_pending());
    let mut copy = fut.clone();
    fut.release();
    assert!(copy.poll(&mut cx).is_pending());
    channel.send(2).unwrap();
    assert_eq!(counter.wakes.load(Ordering::SeqCst), 1);
    assert_eq!(copy.poll(&mut cx), Poll::Ready(Ok(())));
    copy.release();
}

#[test]
fn channel_from_inner_shares_state() {
    let channel = Channel::<u8>::default();
    let inner = channel.clone().into_inner();
    let again = Channel::from_inner(inner);
    again.send(8).unwrap();
    assert_eq!(channel.get_value(), Some(Ok(&8)));
}

#[test]
fn values_compare_by_content() {
    let a = Channel::new();
    a.send(String::from("x")).unwrap();
    let b = Channel::new();
    b.send(String::from("x")).unwrap();
    let x = a.into_value().ok().unwrap();
    let y = b.into_value().ok().unwrap();
    assert!(x == y);
    assert!(x == String::from("x"));
    assert!(x != String::from("y"));
    assert!(x <= y);
    assert!(x < String::from("y"));
}

#[test]
fn get_unchecked_does_not_block() {
    let inner = InnerChannel::<u8>::new();
    assert_eq!(inner.get_unchecked(), None);
    inner.send(3).unwrap();
    assert_eq!(inner.get_unchecked(), Some(&3));
}
