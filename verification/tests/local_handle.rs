use actix_interop::local_handle::{local_handle, Abandoned, Local, LocalHandle};
use futures::channel::oneshot;
use futures::task::{noop_waker, waker, ArcWake};
use std::future::Future;
use std::pin::Pin;
use std::sync::atomic::{AtomicUsize, Ordering};
use std::sync::Arc;
use std::task::{Context, Poll};

/// A future that is pending a few times before its output is there.
struct Countdown {
    pending: u32,
    output: i32,
    polls: u32,
}

fn countdown(pending: u32, output: i32) -> Countdown {
    Countdown {
        pending,
        output,
        polls: 0,
    }
}

impl Future for Countdown {
    type Output = i32;

    fn poll(mut self: Pin<&mut Self>, _cx: &mut Context<'_>) -> Poll<i32> {
        self.polls += 1;
        if self.pending == 0 {
            Poll::Ready(self.output)
        } else {
            self.pending -= 1;
            Poll::Pending
        }
    }
}

fn poll_countdown(future: &mut Countdown, cx: &mut Context<'_>) -> Poll<i32> {
    Pin::new(future).poll(cx)
}

struct Wakes(AtomicUsize);

impl ArcWake for Wakes {
    fn wake_by_ref(wakes: &Arc<Self>) {
        wakes.0.fetch_add(1, Ordering::SeqCst);
    }
}

#[test]
fn output_reaches_the_handle() {
    let waker = noop_waker();
    let mut cx = Context::from_waker(&waker);
    let (mut local, mut handle): (Local<Countdown>, LocalHandle<i32>) =
        local_handle(countdown(2, 41));

    assert_eq!(handle.poll(&mut cx), Poll::Pending);
    assert_eq!(local.poll(&mut cx, poll_countdown), Poll::Pending);
    assert!(local.is_open());
    assert_eq!(handle.poll(&mut cx), Poll::Pending);
    assert_eq!(local.poll(&mut cx, poll_countdown), Poll::Pending);
    assert_eq!(local.future().polls, 2);
    assert_eq!(handle.poll(&mut cx), Poll::Pending);
    assert_eq!(local.poll(&mut cx, poll_countdown), Poll::Ready(()));
    assert!(!local.is_open());
    assert_eq!(local.future().polls, 3);
    assert_eq!(handle.poll(&mut cx), Poll::Ready(Ok(41)));
}

#[test]
fn output_is_yielded_once() {
    let waker = noop_waker();
    let mut cx = Context::from_waker(&waker);
    let (mut local, mut handle) = local_handle(countdown(0, 7));

    assert_eq!(local.poll(&mut cx, poll_countdown), Poll::Ready(()));
    drop(local);
    assert_eq!(handle.poll(&mut cx), Poll::Ready(Ok(7)));
    assert_eq!(handle.poll(&mut cx), Poll::Ready(Err(Abandoned)));
    assert_eq!(handle.poll(&mut cx), Poll::Ready(Err(Abandoned)));
}

#[test]
fn sent_output_is_there_at_once() {
    let waker = noop_waker();
    let mut cx = Context::from_waker(&waker);
    let (mut local, mut handle) = local_handle(countdown(1, 8));

    assert_eq!(local.poll(&mut cx, poll_countdown), Poll::Pending);
    assert_eq!(handle.poll(&mut cx), Poll::Pending);
    assert_eq!(local.poll(&mut cx, poll_countdown), Poll::Ready(()));
    drop(local);
    assert_eq!(handle.poll_sent(&mut cx), Poll::Ready(Ok(8)));
    assert_eq!(handle.poll(&mut cx), Poll::Ready(Err(Abandoned)));
}

#[test]
fn handle_is_pending_until_the_output_is_sent() {
    let waker = noop_waker();
    let mut cx = Context::from_waker(&waker);
    let (mut local, mut handle) = local_handle(countdown(1, 6));

    for _ in 0..3 {
        assert_eq!(local.poll_handle(&mut handle, &mut cx), Poll::Pending);
    }
    assert_eq!(local.future().polls, 0);
    assert_eq!(local.poll(&mut cx, poll_countdown), Poll::Pending);
    assert_eq!(local.poll_handle(&mut handle, &mut cx), Poll::Pending);
    assert_eq!(local.poll(&mut cx, poll_countdown), Poll::Ready(()));
    assert_eq!(handle.poll(&mut cx), Poll::Ready(Ok(6)));
}

#[test]
fn halves_of_two_futures_are_not_mixed_up() {
    let waker = noop_waker();
    let mut cx = Context::from_waker(&waker);
    let (mut first, mut first_handle) = local_handle(countdown(0, 1));
    let (mut second, mut second_handle) = local_handle(countdown(0, 2));

    assert_eq!(second.poll(&mut cx, poll_countdown), Poll::Ready(()));
    assert_eq!(first_handle.poll(&mut cx), Poll::Pending);
    assert_eq!(second_handle.poll(&mut cx), Poll::Ready(Ok(2)));
    assert_eq!(first.poll(&mut cx, poll_countdown), Poll::Ready(()));
    assert_eq!(first_handle.poll(&mut cx), Poll::Ready(Ok(1)));
}

#[test]
fn dropped_handle_stops_the_future() {
    let waker = noop_waker();
    let mut cx = Context::from_waker(&waker);
    let (mut local, handle): (Local<Countdown>, LocalHandle<i32>) =
        local_handle(countdown(1, 3));

    assert_eq!(local.poll(&mut cx, poll_countdown), Poll::Pending);
    drop(handle);
    assert_eq!(local.poll(&mut cx, poll_countdown), Poll::Ready(()));
    assert_eq!(local.future().polls, 1);
    assert!(local.is_open());
    assert_eq!(local.poll(&mut cx, poll_countdown), Poll::Ready(()));
    assert_eq!(local.future().polls, 1);
}

#[test]
fn dropped_handle_wakes_the_future() {
    let wakes = Arc::new(Wakes(AtomicUsize::new(0)));
    let waker = waker(wakes.clone());
    let mut cx = Context::from_waker(&waker);
    let (mut local, handle): (Local<Countdown>, LocalHandle<i32>) =
        local_handle(countdown(1, 3));

    assert_eq!(local.poll(&mut cx, poll_countdown), Poll::Pending);
    assert_eq!(wakes.0.load(Ordering::SeqCst), 0);
    drop(handle);
    assert_eq!(wakes.0.load(Ordering::SeqCst), 1);
}

#[test]
fn sent_output_wakes_the_handle() {
    let wakes = Arc::new(Wakes(AtomicUsize::new(0)));
    let waker = waker(wakes.clone());
    let mut cx = Context::from_waker(&waker);
    let (mut local, mut handle) = local_handle(countdown(0, 3));

    assert_eq!(handle.poll(&mut cx), Poll::Pending);
    let idle = noop_waker();
    assert_eq!(
        local.poll(&mut Context::from_waker(&idle), poll_countdown),
        Poll::Ready(())
    );
    assert_eq!(wakes.0.load(Ordering::SeqCst), 1);
    assert_eq!(handle.poll(&mut cx), Poll::Ready(Ok(3)));
}

#[test]
fn handle_dropped_while_the_future_runs() {
    let waker = noop_waker();
    let mut cx = Context::from_waker(&waker);
    let (mut local, handle): (Local<Countdown>, LocalHandle<i32>) =
        local_handle(countdown(0, 3));

    let returned = local.poll(&mut cx, |future, cx| {
        drop(handle);
        poll_countdown(future, cx)
    });
    assert_eq!(returned, Poll::Ready(()));
    assert!(!local.is_open());
}

#[test]
fn dropped_future_is_reported() {
    let waker = noop_waker();
    let mut cx = Context::from_waker(&waker);
    let (local, mut handle): (Local<Countdown>, LocalHandle<i32>) =
        local_handle(countdown(1, 3));

    assert_eq!(handle.poll(&mut cx), Poll::Pending);
    drop(local);
    assert_eq!(handle.poll(&mut cx), Poll::Ready(Err(Abandoned)));
    assert_eq!(handle.poll(&mut cx), Poll::Ready(Err(Abandoned)));
}

#[test]
fn polls_unless_canceled() {
    let waker = noop_waker();
    let mut cx = Context::from_waker(&waker);
    let (mut local, mut handle) = local_handle(countdown(1, 9));

    assert_eq!(
        local.poll_unless(Poll::Ready(()), &mut cx, poll_countdown),
        Poll::Ready(())
    );
    assert_eq!(local.future().polls, 0);
    assert_eq!(
        local.poll_unless(Poll::Pending, &mut cx, poll_countdown),
        Poll::Pending
    );
    assert!(local.is_open());
    assert_eq!(
        local.poll_unless(Poll::Pending, &mut cx, poll_countdown),
        Poll::Ready(())
    );
    assert_eq!(local.future().polls, 2);
    assert!(!local.is_open());
    assert_eq!(handle.poll(&mut cx), Poll::Ready(Ok(9)));
}

#[test]
fn resolves_what_was_received() {
    assert_eq!(
        LocalHandle::resolve(Poll::Ready(Ok(5))),
        Poll::Ready(Ok(5))
    );
    assert_eq!(
        LocalHandle::<i32>::resolve(Poll::Ready(Err(oneshot::Canceled))),
        Poll::Ready(Err(Abandoned))
    );
    assert_eq!(LocalHandle::<i32>::resolve(Poll::Pending), Poll::Pending);
}
