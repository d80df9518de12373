//! Actors on a small executor. It keeps the rule that an actor's context keeps:
//! while it waits for futures, it polls the one registered last, until it is done
//! or has registered another.
use actix_interop::context::ContextError;
use actix_interop::{critical_section, with_ctx};
use actix_interop::interop;
use actix_interop::interop::{FutureInterop, FutureInteropWrap, StreamInteropWrap};
use actix_interop::local_handle::{Local, LocalHandle};
use futures::channel::oneshot;
use futures::stream;
use futures::stream::Stream;
use futures::task::noop_waker;
use std::cell::RefCell;
use std::collections::VecDeque;
use std::future::{poll_fn, Future};
use std::mem;
use std::pin::Pin;
use std::rc::Rc;
use std::task::{Context, Poll};

type Task<T> = Pin<Box<dyn Future<Output = T>>>;

/// What an actor's context waits for.
struct Waits<A> {
    sections: Vec<FutureInteropWrap<A, Local<Task<i32>>>>,
}

impl<A> Default for Waits<A> {
    fn default() -> Self {
        Waits {
            sections: Vec::new(),
        }
    }
}

/// Where the actor and the context in scope are kept.
struct Key<A>(Rc<RefCell<Option<(A, Waits<A>)>>>);

impl<A> Clone for Key<A> {
    fn clone(&self) -> Self {
        Key(self.0.clone())
    }
}

impl<A: Default> Key<A> {
    fn new() -> Self {
        Key(Rc::new(RefCell::new(None)))
    }

    /// Runs `f` with the actor and the context in scope.
    fn set<R>(&self, actor: &mut A, waits: &mut Waits<A>, f: impl FnOnce() -> R) -> R {
        let outer = self.0.replace(Some((mem::take(actor), mem::take(waits))));
        let result = f();
        let (a, w) = self.0.replace(outer).unwrap();
        *actor = a;
        *waits = w;
        result
    }

    /// Borrows the actor and the context in scope; nothing is in scope meanwhile.
    fn with_ctx<R>(&self, f: impl FnOnce(&mut A, &mut Waits<A>) -> R) -> Result<R, ContextError> {
        let mut taken = self.0.replace(None);
        let result = match &mut taken {
            Some((actor, waits)) => with_ctx(Some((Some(actor), Some(waits))), f),
            None => with_ctx(None, f),
        };
        self.0.replace(taken);
        result
    }

    fn enter(&self, f: Task<i32>) -> Result<LocalHandle<i32>, ContextError> {
        let mut taken = self.0.replace(None);
        let scope = match &mut taken {
            Some((actor, waits)) => Some((Some(actor), Some(waits))),
            None => None,
        };
        let result = critical_section(scope, f, |waits: &mut Waits<A>, section| {
            waits.sections.push(section)
        });
        self.0.replace(taken);
        result
    }

    async fn critical_section(&self, f: Task<i32>) -> i32 {
        let mut handle = self.enter(f).unwrap();
        poll_fn(move |cx| handle.poll(cx)).await.unwrap()
    }
}

/// Polls the futures spawned onto an actor until each has its output.
fn run<A: Default, T>(
    key: &Key<A>,
    actor: &mut A,
    spawned: Vec<FutureInteropWrap<A, Task<T>>>,
) -> Vec<T> {
    let waker = noop_waker();
    let mut cx = Context::from_waker(&waker);
    let mut waits = Waits::default();
    let mut spawned: Vec<(FutureInteropWrap<A, Task<T>>, Option<T>)> =
        spawned.into_iter().map(|task| (task, None)).collect();
    for turn in 0.. {
        assert!(turn < 1000, "no progress");
        if spawned.iter().all(|(_, output)| output.is_some()) {
            break;
        }
        for (task, output) in spawned.iter_mut() {
            if !waits.sections.is_empty() {
                let mut section = waits.sections.pop().unwrap();
                let place = waits.sections.len();
                let returned = section.poll(actor, &mut waits, &mut cx, |a, w, local, cx| {
                    key.set(a, w, || {
                        assert!(local.is_open());
                        local.poll(cx, |future, cx| future.as_mut().poll(cx))
                    })
                });
                if returned.is_pending() {
                    waits.sections.insert(place, section);
                }
            } else if output.is_none() {
                let polled = task.poll(actor, &mut waits, &mut cx, |a, w, future, cx| {
                    key.set(a, w, || future.as_mut().poll(cx))
                });
                if let Poll::Ready(value) = polled {
                    *output = Some(value);
                }
            }
        }
    }
    spawned
        .into_iter()
        .map(|(_, output)| output.unwrap())
        .collect()
}

/// Is pending once.
async fn pause() {
    let mut paused = false;
    poll_fn(move |_| {
        if paused {
            Poll::Ready(())
        } else {
            paused = true;
            Poll::Pending
        }
    })
    .await
}

#[derive(Default)]
struct Summator {
    field: i32,
}

/// The handler of a message that adds `n`.
fn sum(key: &Key<Summator>, n: i32) -> Task<Result<i32, ()>> {
    let key = key.clone();
    Box::pin(async move {
        // Run some code with exclusive access to the actor
        let inner = key.clone();
        let accum = key
            .critical_section(Box::pin(async move {
                inner
                    .with_ctx(|a: &mut Summator, _| {
                        a.field += n;
                        a.field
                    })
                    .unwrap()
            }))
            .await;

        // Return a result
        Ok(accum)
    })
}

#[test]
fn can_run_future() {
    let key = Key::new();
    let mut actor = Summator { field: 0 };

    let task = sum(&key, 3).interop_actor(&actor);
    run(&key, &mut actor, vec![task])[0].unwrap();
    let task = sum(&key, 4).interop_actor(&actor);
    let res = run(&key, &mut actor, vec![task]);

    assert_eq!(res[0], Ok(7));
}

#[test]
fn can_run_stream() {
    let key: Key<Summator> = Key::new();
    let mut actor = Summator { field: 0 };
    let mut waits = Waits::default();
    let waker = noop_waker();
    let mut cx = Context::from_waker(&waker);

    let numbers = Box::pin(stream::iter(1..5));
    let mut numbers: StreamInteropWrap<Summator, _> =
        interop::StreamInterop::interop_actor(numbers, &actor);
    let mut items = Vec::new();
    loop {
        let next = numbers.poll_next(&mut actor, &mut waits, &mut cx, |a, w, s, cx| {
            key.set(a, w, || {
                let next = s.as_mut().poll_next(cx);
                if let Poll::Ready(Some(item)) = next {
                    key.with_ctx(|a, _| a.field += item).unwrap();
                }
                next
            })
        });
        match next {
            Poll::Ready(Some(item)) => items.push(item),
            Poll::Ready(None) => break,
            Poll::Pending => unreachable!(),
        }
    }
    assert_eq!(items, vec![1, 2, 3, 4]);
    assert_eq!(actor.field, 10);
}

#[test]
fn boxed_adapters_poll_the_same_future() {
    let key: Key<Summator> = Key::new();
    let mut actor = Summator { field: 5 };
    let mut waits = Waits::default();
    let waker = noop_waker();
    let mut cx = Context::from_waker(&waker);

    let future: Task<i32> = Box::pin(async { 12 });
    let mut boxed = FutureInterop::interop_actor_boxed(future, &actor);
    let polled = boxed.poll(&mut actor, &mut waits, &mut cx, |a, w, future, cx| {
        key.set(a, w, || future.as_mut().poll(cx))
    });
    assert_eq!(polled, Poll::Ready(12));

    let items = Box::pin(stream::iter(vec!['x']));
    let mut boxed: Box<StreamInteropWrap<Summator, _>> =
        interop::StreamInterop::interop_actor_boxed(items, &actor);
    for expected in [Poll::Ready(Some('x')), Poll::Ready(None)] {
        let polled = boxed.poll_next(&mut actor, &mut waits, &mut cx, |a, w, s, cx| {
            key.set(a, w, || s.as_mut().poll_next(cx))
        });
        assert_eq!(polled, expected);
    }
    assert_eq!(actor.field, 5);
}

#[test]
fn nested_borrow_is_refused() {
    let key: Key<Summator> = Key::new();
    let mut actor = Summator { field: 1 };
    let inner = key.clone();
    let task: Task<Result<Result<i32, ContextError>, ContextError>> =
        Box::pin(async move { inner.with_ctx(|_, _| inner.with_ctx(|a, _| a.field)) });
    let task = task.interop_actor(&actor);

    assert_eq!(
        run(&key, &mut actor, vec![task]),
        vec![Ok(Err(ContextError::NotSet))]
    );
    assert_eq!(key.with_ctx(|a, _| a.field), Err(ContextError::NotSet));
    assert_eq!(
        key.enter(Box::pin(async { 1 })).err(),
        Some(ContextError::NotSet)
    );
}

#[test]
fn critical_section_is_exclusive() {
    let key: Key<Vec<&'static str>> = Key::new();
    let mut log = Vec::new();

    let entering: Task<i32> = {
        let key = key.clone();
        Box::pin(async move {
            key.with_ctx(|log, _| log.push("before")).unwrap();
            let inner = key.clone();
            let output = key
                .critical_section(Box::pin(async move {
                    for _ in 0..3 {
                        inner.with_ctx(|log, _| log.push("section")).unwrap();
                        pause().await;
                    }
                    17
                }))
                .await;
            key.with_ctx(|log, _| log.push("after")).unwrap();
            output
        })
    };
    let other: Task<i32> = {
        let key = key.clone();
        Box::pin(async move {
            for _ in 0..2 {
                key.with_ctx(|log, _| log.push("other")).unwrap();
                pause().await;
            }
            4
        })
    };
    let spawned = vec![entering.interop_actor(&log), other.interop_actor(&log)];
    assert_eq!(run(&key, &mut log, spawned), vec![17, 4]);

    let first = log.iter().position(|entry| *entry == "section").unwrap();
    assert_eq!(log[first..first + 3], ["section", "section", "section"]);
    assert_eq!(log[..first], ["before"]);
    assert_eq!(log.iter().filter(|entry| **entry == "other").count(), 2);
    assert_eq!(log.iter().filter(|entry| **entry == "after").count(), 1);
}

/// The handler of a message that logs the start and the end of a section.
fn logged(key: &Key<Vec<String>>, i: i32, pauses: i32) -> Task<i32> {
    let key = key.clone();
    Box::pin(async move {
        let inner = key.clone();
        key.critical_section(Box::pin(async move {
            inner
                .with_ctx(|log, _| log.push(format!("start {}", i)))
                .unwrap();
            for _ in 0..pauses {
                pause().await;
            }
            inner
                .with_ctx(|log, _| log.push(format!("end {}", i)))
                .unwrap();
            i
        }))
        .await
    })
}

#[test]
fn critical_sections_do_not_interleave() {
    let key: Key<Vec<String>> = Key::new();
    let mut log = Vec::new();
    let spawned = vec![
        logged(&key, 1, 5).interop_actor(&log),
        logged(&key, 2, 0).interop_actor(&log),
        logged(&key, 3, 2).interop_actor(&log),
    ];
    assert_eq!(run(&key, &mut log, spawned), vec![1, 2, 3]);
    assert_eq!(log.len(), 6);
    for pair in log.chunks(2) {
        assert_eq!(pair[0].replace("start", "end"), pair[1]);
    }
}

#[test]
fn access_ends_with_the_section() {
    let key: Key<Vec<&'static str>> = Key::new();
    let mut log = Vec::new();
    let entering: Task<i32> = {
        let key = key.clone();
        Box::pin(async move {
            let inner = key.clone();
            key.critical_section(Box::pin(async move {
                inner.with_ctx(|log, _| log.push("section")).unwrap();
                0
            }))
            .await;
            for _ in 0..10 {
                pause().await;
            }
            key.with_ctx(|log, _| log.push("after")).unwrap();
            1
        })
    };
    let other: Task<i32> = {
        let key = key.clone();
        Box::pin(async move {
            key.with_ctx(|log, _| log.push("other")).unwrap();
            2
        })
    };
    let spawned = vec![entering.interop_actor(&log), other.interop_actor(&log)];
    assert_eq!(run(&key, &mut log, spawned), vec![1, 2]);
    assert_eq!(log, ["section", "other", "after"]);
}

#[test]
fn section_with_a_dropped_handle_does_not_run() {
    let key: Key<Summator> = Key::new();
    let mut actor = Summator { field: 6 };
    let task: Task<i32> = {
        let key = key.clone();
        Box::pin(async move {
            let inner = key.clone();
            let handle = key.enter(Box::pin(async move {
                inner.with_ctx(|a, _| a.field = 0).unwrap();
                1
            }));
            drop(handle);
            pause().await;
            key.with_ctx(|a, _| a.field).unwrap()
        })
    };
    let task = task.interop_actor(&actor);
    assert_eq!(run(&key, &mut actor, vec![task]), vec![6]);
    assert_eq!(actor.field, 6);
}

#[test]
fn critical_sections_nest() {
    let key: Key<Summator> = Key::new();
    let mut actor = Summator { field: 2 };
    let outer = key.clone();
    let task: Task<i32> = Box::pin(async move {
        let middle = outer.clone();
        outer
            .critical_section(Box::pin(async move {
                let inner = middle.clone();
                let n = middle
                    .critical_section(Box::pin(async move {
                        inner.with_ctx(|a, _| a.field).unwrap()
                    }))
                    .await;
                middle
                    .with_ctx(|a, _| {
                        a.field += n;
                        a.field
                    })
                    .unwrap()
            }))
            .await
    });
    let task = task.interop_actor(&actor);
    assert_eq!(run(&key, &mut actor, vec![task]), vec![4]);
    assert_eq!(actor.field, 4);
}

/// An actor that turns a request/response pipeline into messages.
#[derive(Default)]
struct Pipeline {
    /// The requests sent, while no one is sending.
    sink: Option<Vec<i32>>,
    in_flight: VecDeque<oneshot::Sender<String>>,
}

/// The handler of a request.
fn request(key: &Key<Pipeline>, req: i32) -> Task<String> {
    let key = key.clone();
    Box::pin(async move {
        let (tx, rx) = oneshot::channel();
        // Perform sends in a critical section so they are strictly ordered
        let inner = key.clone();
        key.critical_section(Box::pin(async move {
            let mut sink = inner
                .with_ctx(|actor, _| actor.sink.take())
                .unwrap()
                .expect("Sink to be present");
            pause().await;
            sink.push(req);
            pause().await;
            inner
                .with_ctx(|actor, _| {
                    actor.sink = Some(sink);
                    actor.in_flight.push_back(tx);
                })
                .unwrap();
            0
        }))
        .await;
        // Wait for the result concurrently
        rx.await.expect("Sender should not be dropped")
    })
}

/// Takes the requests that arrive at the other end, and answers them in order.
fn respond(key: &Key<Pipeline>, expected: usize) -> Task<String> {
    let key = key.clone();
    Box::pin(async move {
        let mut answered = 0;
        while answered < expected {
            key.with_ctx(|actor, _| {
                if actor.in_flight.len() + answered == expected {
                    let sent = actor.sink.as_ref().unwrap()[answered];
                    let tx = actor.in_flight.pop_front().unwrap();
                    tx.send(format!("response to {}", sent)).unwrap();
                    answered += 1;
                }
            })
            .unwrap();
            pause().await;
        }
        String::new()
    })
}

#[test]
fn responses_match_requests_in_order() {
    let key: Key<Pipeline> = Key::new();
    let mut actor = Pipeline {
        sink: Some(Vec::new()),
        in_flight: VecDeque::new(),
    };
    let mut spawned = Vec::new();
    for req in [30, 10, 20] {
        spawned.push(request(&key, req).interop_actor(&actor));
    }
    spawned.push(respond(&key, 3).interop_actor(&actor));
    let outputs = run(&key, &mut actor, spawned);
    assert_eq!(
        outputs[..3],
        ["response to 30", "response to 10", "response to 20"]
    );
    assert_eq!(actor.sink.unwrap().len(), 3);
    assert!(actor.in_flight.is_empty());
}
