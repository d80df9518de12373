use actix_interop::context::ContextError;
use actix_interop::{critical_section, with_ctx};
use actix_interop::interop::FutureInteropWrap;
use actix_interop::local_handle::{Local, LocalHandle};
use futures::task::noop_waker;
use std::future::Future;
use std::pin::Pin;
use std::task::{Context, Poll};

struct Counter {
    field: i32,
}

struct Waiting {
    tasks: Vec<FutureInteropWrap<Counter, Local<Add>>>,
}

/// A future whose output is a sum.
struct Add {
    left: i32,
    right: i32,
}

impl Future for Add {
    type Output = i32;

    fn poll(self: Pin<&mut Self>, _cx: &mut Context<'_>) -> Poll<i32> {
        Poll::Ready(self.left + self.right)
    }
}

fn add() -> Add {
    Add { left: 0, right: 20 }
}

fn enter(
    counter: Option<&mut Counter>,
    waiting: Option<&mut Waiting>,
) -> Result<LocalHandle<i32>, ContextError> {
    critical_section(
        Some((counter, waiting)),
        add(),
        |waiting: &mut Waiting, task| waiting.tasks.push(task),
    )
}

#[test]
fn with_ctx_lends_actor_and_context() {
    let mut counter = Counter { field: 3 };
    let mut log = vec![1u8];
    let result = with_ctx(
        Some((Some(&mut counter), Some(&mut log))),
        |counter: &mut Counter, log: &mut Vec<u8>| {
            counter.field += 4;
            log.push(2);
            counter.field
        },
    );
    assert_eq!(result, Ok(7));
    assert_eq!(counter.field, 7);
    assert_eq!(log, vec![1, 2]);
}

#[test]
fn with_ctx_refuses_outside_of_a_scope() {
    let mut called = false;
    let result = with_ctx(None, |_: &mut Counter, _: &mut Waiting| called = true);
    assert_eq!(result, Err(ContextError::NotSet));
    assert!(!called);
}

#[test]
fn with_ctx_refuses_the_wrong_actor() {
    let mut counter = Counter { field: 3 };
    let mut log = vec![1u8];
    let mut called = 0;

    let result = with_ctx(
        Some((Some(&mut counter), None)),
        |_: &mut Counter, _: &mut Vec<u8>| called += 1,
    );
    assert_eq!(result, Err(ContextError::WrongActor));
    let result = with_ctx(
        Some((None, Some(&mut log))),
        |_: &mut Counter, _: &mut Vec<u8>| called += 1,
    );
    assert_eq!(result, Err(ContextError::WrongActor));
    let result = with_ctx(Some((None, None)), |_: &mut Counter, _: &mut Vec<u8>| {
        called += 1
    });
    assert_eq!(result, Err(ContextError::WrongActor));

    assert_eq!(called, 0);
    assert_eq!(counter.field, 3);
    assert_eq!(log, vec![1]);
}

#[test]
fn errors_have_their_texts() {
    assert_eq!(
        ContextError::NotSet.message(),
        "cannot access a scoped thread local variable without calling `set` first"
    );
    assert_eq!(
        ContextError::WrongActor.message(),
        "Future was spawned onto the wrong actor"
    );
}

#[test]
fn critical_section_is_handed_to_the_context() {
    let mut counter = Counter { field: 1 };
    let mut waiting = Waiting { tasks: Vec::new() };
    let handle = enter(Some(&mut counter), Some(&mut waiting));
    assert!(handle.is_ok());
    assert_eq!(counter.field, 1);
    assert_eq!(waiting.tasks.len(), 1);
    assert_eq!(waiting.tasks[0].get_ref().future().right, 20);
    assert!(waiting.tasks[0].get_ref().is_open());

    let waker = noop_waker();
    let mut cx = Context::from_waker(&waker);
    let mut handle = handle.unwrap();
    assert_eq!(handle.poll(&mut cx), Poll::Pending);
    let mut task = waiting.tasks.pop().unwrap();
    let returned = task.poll(
        &mut counter,
        &mut waiting,
        &mut cx,
        |counter: &mut Counter, _, local, cx| {
            local.poll(cx, |future, cx| {
                future.left = counter.field;
                let sum = Pin::new(future).poll(cx);
                counter.field = 21;
                sum
            })
        },
    );
    assert_eq!(returned, Poll::Ready(()));
    assert_eq!(counter.field, 21);
    assert_eq!(handle.poll(&mut cx), Poll::Ready(Ok(21)));
}

#[test]
fn critical_section_is_refused_like_with_ctx() {
    let mut counter = Counter { field: 1 };
    let mut waiting = Waiting { tasks: Vec::new() };

    let refused = critical_section(
        None,
        add(),
        |waiting: &mut Waiting, task: FutureInteropWrap<Counter, Local<Add>>| {
            waiting.tasks.push(task)
        },
    );
    assert_eq!(refused.err(), Some(ContextError::NotSet));
    assert_eq!(
        enter(None, Some(&mut waiting)).err(),
        Some(ContextError::WrongActor)
    );
    assert_eq!(
        enter(Some(&mut counter), None).err(),
        Some(ContextError::WrongActor)
    );
    assert_eq!(enter(None, None).err(), Some(ContextError::WrongActor));
    assert!(waiting.tasks.is_empty());
    assert_eq!(counter.field, 1);
}
