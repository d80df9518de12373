//! Adapters that poll a future or a stream with an actor's state and context in
//! scope.
use std::future::Future;
use std::marker::PhantomData;
use std::task::{Context, Poll};
use vstd::prelude::*;

verus! {

/// Future adapter returned by [`interop_actor`](FutureInterop::interop_actor).
#[derive(Debug)]
pub struct FutureInteropWrap<A, F> {
    inner: F,
    phantom: PhantomData<A>,
}

impl<A, F> FutureInteropWrap<A, F> {
    /// The adapted future.
    pub closed spec fn inner(&self) -> F {
        self.inner
    }

    /// Adapts a future.
    pub fn new(inner: F) -> (wrap: Self)
        ensures
            wrap.inner() == inner,
    {
        Self { inner, phantom: PhantomData }
    }

    /// The adapted future.
    pub fn get_ref(&self) -> (inner: &F)
        ensures
            *inner == self.inner(),
    {
        &self.inner
    }

    /// Polls the adapted future once, on behalf of `actor`. `poll_in_scope` puts
    /// the actor and its context in scope, polls the future, and takes them out
    /// of scope again; what it returns is the outcome.
    pub fn poll<C, T, S>(
        &mut self,
        actor: &mut A,
        ctx: &mut C,
        task: &mut Context<'_>,
        poll_in_scope: S,
    ) -> (outcome: Poll<T>) where
        S: FnOnce(&mut A, &mut C, &mut F, &mut Context<'_>) -> Poll<T>,

        requires
            forall|a: &mut A, c: &mut C, f: &mut F, t: &mut Context<'_>|
                *a == *old(actor) && *c == *old(ctx) && *f == old(self).inner() && *t == *old(task)
                    ==> #[trigger] call_requires(poll_in_scope, (a, c, f, t)),
        ensures
            exists|a: &mut A, c: &mut C, f: &mut F, t: &mut Context<'_>|
                {
                    &&& #[trigger] call_ensures(poll_in_scope, (a, c, f, t), outcome)
                    &&& *a == *old(actor) && *final(a) == *final(actor)
                    &&& *c == *old(ctx) && *final(c) == *final(ctx)
                    &&& *f == old(self).inner() && *final(f) == final(self).inner()
                    &&& *t == *old(task) && *final(t) == *final(task)
                },
    {
        poll_in_scope(actor, ctx, &mut self.inner, task)
    }
}

/// Extension trait implemented for all futures. Import this trait to bring the
/// [`interop_actor`](FutureInterop::interop_actor) and
/// [`interop_actor_boxed`](FutureInterop::interop_actor_boxed) methods into scope.
pub trait FutureInterop<A>: Future + Sized {
    /// Adapts a future that uses `with_ctx` or `critical_section`.
    fn interop_actor(self, actor: &A) -> (wrap: FutureInteropWrap<A, Self>)
        ensures
            wrap.inner() == self,
    ;

    /// Adapts a future that uses `with_ctx` or `critical_section`, and boxes it.
    fn interop_actor_boxed(self, actor: &A) -> (wrap: Box<FutureInteropWrap<A, Self>>)
        ensures
            wrap.inner() == self,
    {
        Box::new(self.interop_actor(actor))
    }
}

impl<A, F: Future> FutureInterop<A> for F {
    fn interop_actor(self, _actor: &A) -> (wrap: FutureInteropWrap<A, Self>) {
        FutureInteropWrap::new(self)
    }
}

/// Stream adapter returned by [`interop_actor`](StreamInterop::interop_actor).
#[derive(Debug)]
pub struct StreamInteropWrap<A, S> {
    inner: S,
    phantom: PhantomData<A>,
}

impl<A, S> StreamInteropWrap<A, S> {
    /// The adapted stream.
    pub closed spec fn inner(&self) -> S {
        self.inner
    }

    /// Adapts a stream.
    pub fn new(inner: S) -> (wrap: Self)
        ensures
            wrap.inner() == inner,
    {
        Self { inner, phantom: PhantomData }
    }

    /// Polls the adapted stream for its next item, on behalf of `actor`.
    /// `poll_in_scope` puts the actor and its context in scope, polls the stream,
    /// and takes them out of scope again; what it returns is the outcome.
    pub fn poll_next<C, T, P>(
        &mut self,
        actor: &mut A,
        ctx: &mut C,
        task: &mut Context<'_>,
        poll_in_scope: P,
    ) -> (outcome: Poll<Option<T>>) where
        P: FnOnce(&mut A, &mut C, &mut S, &mut Context<'_>) -> Poll<Option<T>>,

        requires
            forall|a: &mut A, c: &mut C, s: &mut S, t: &mut Context<'_>|
                *a == *old(actor) && *c == *old(ctx) && *s == old(self).inner() && *t == *old(task)
                    ==> #[trigger] call_requires(poll_in_scope, (a, c, s, t)),
        ensures
            exists|relay: Relay<S, T>|
                {
                    &&& #[trigger] relay.taken()
                    &&& relay.before == old(self).inner() && relay.after == final(self).inner()
                    &&& relay.returned == outcome
                    &&& exists|a: &mut A, c: &mut C, s: &mut S, t: &mut Context<'_>|
                        {
                            &&& #[trigger] call_ensures(poll_in_scope, (a, c, s, t), relay.given)
                            &&& *a == *old(actor) && *final(a) == *final(actor)
                            &&& *c == *old(ctx) && *final(c) == *final(ctx)
                            &&& *s == old(self).inner() && *final(s) == final(self).inner()
                            &&& *t == *old(task) && *final(t) == *final(task)
                        }
                },
            exists|a: &mut A, c: &mut C, s: &mut S, t: &mut Context<'_>|
                {
                    &&& #[trigger] call_ensures(poll_in_scope, (a, c, s, t), outcome)
                    &&& *a == *old(actor) && *final(a) == *final(actor)
                    &&& *c == *old(ctx) && *final(c) == *final(ctx)
                    &&& *s == old(self).inner() && *final(s) == final(self).inner()
                    &&& *t == *old(task) && *final(t) == *final(task)
                },
    {
        let outcome = poll_in_scope(actor, ctx, &mut self.inner, task);
        proof {
            let relay = Relay {
                before: old(self).inner(),
                given: outcome,
                after: self.inner(),
                returned: outcome,
            };
            assert(relay.taken());
        }
        outcome
    }
}

/// A poll of an adapted stream: what the stream was before, what it gave, what it
/// was after, and what the adapter returned.
#[verifier::reject_recursive_types(T)]
pub struct Relay<S, T> {
    pub before: S,
    pub given: Poll<Option<T>>,
    pub after: S,
    pub returned: Poll<Option<T>>,
}

impl<S, T> Relay<S, T> {
    /// The poll went as polls of an adapted stream go.
    pub open spec fn taken(self) -> bool {
        self.returned == self.given
    }
}

/// The items among the outcomes of polls of a stream.
pub open spec fn items<T>(outcomes: Seq<Poll<Option<T>>>) -> Seq<T>
    decreases outcomes.len(),
{
    if outcomes.len() == 0 {
        Seq::empty()
    } else {
        let earlier = items(outcomes.drop_last());
        match outcomes.last() {
            Poll::Ready(Some(item)) => earlier.push(item),
            _ => earlier,
        }
    }
}

/// An adapter yields the items of its stream, in their order, none lost, repeated
/// or added, and ends exactly when the stream does.
pub proof fn law_items_are_kept<S, T>(relays: Seq<Relay<S, T>>)
    requires
        forall|i: int| 0 <= i < relays.len() ==> (#[trigger] relays[i]).taken(),
    ensures
        items(Seq::new(relays.len(), |i: int| relays[i].returned)) == items(
            Seq::new(relays.len(), |i: int| relays[i].given),
        ),
        forall|i: int|
            0 <= i < relays.len() ==> ((#[trigger] relays[i]).returned == Poll::Ready(None::<T>)
                <==> relays[i].given == Poll::Ready(None::<T>)),
{
    assert forall|i: int| 0 <= i < relays.len() implies (#[trigger] relays[i]).returned
        == relays[i].given by {
        assert(relays[i].taken());
    }
    assert(Seq::new(relays.len(), |i: int| relays[i].returned) =~= Seq::new(
        relays.len(),
        |i: int| relays[i].given,
    ));
}

/// Extension trait for streams. Import this trait to bring the
/// [`interop_actor`](StreamInterop::interop_actor) and
/// [`interop_actor_boxed`](StreamInterop::interop_actor_boxed) methods into scope.
pub trait StreamInterop<A>: Sized {
    /// Adapts a stream that uses `with_ctx` or `critical_section`.
    fn interop_actor(self, actor: &A) -> (wrap: StreamInteropWrap<A, Self>)
        ensures
            wrap.inner() == self,
    ;

    /// Adapts a stream that uses `with_ctx` or `critical_section`, and boxes it.
    fn interop_actor_boxed(self, actor: &A) -> (wrap: Box<StreamInteropWrap<A, Self>>)
        ensures
            wrap.inner() == self,
    {
        Box::new(self.interop_actor(actor))
    }
}

impl<A, S> StreamInterop<A> for S {
    fn interop_actor(self, _actor: &A) -> (wrap: StreamInteropWrap<A, Self>) {
        StreamInteropWrap::new(self)
    }
}

/// A future adapter is its future, and nothing else.
pub proof fn law_future_adapter_is_its_future<A, F>(
    one: FutureInteropWrap<A, F>,
    other: FutureInteropWrap<A, F>,
)
    requires
        one.inner() == other.inner(),
    ensures
        one == other,
{
}

/// What is said of a future adapter is said of its field.
proof fn law_future_adapter_shows_its_field<A, F>(wrap: FutureInteropWrap<A, F>)
    ensures
        wrap.inner() == wrap.inner,
{
}

/// However a future is adapted, it is that future which the adapter polls.
pub proof fn law_future_is_adapted_as_it_is<A, F: Future>(
    future: F,
    actor: A,
    made: FutureInteropWrap<A, F>,
    adapted: FutureInteropWrap<A, F>,
    boxed: Box<FutureInteropWrap<A, F>>,
)
    requires
        call_ensures(FutureInteropWrap::<A, F>::new, (future,), made),
        call_ensures(<F as FutureInterop<A>>::interop_actor, (future, &actor), adapted),
        call_ensures(<F as FutureInterop<A>>::interop_actor_boxed, (future, &actor), boxed),
    ensures
        made.inner() == future,
        adapted.inner() == future,
        boxed.inner() == future,
{
}

/// A stream adapter is its stream, and nothing else.
pub proof fn law_stream_adapter_is_its_stream<A, S>(
    one: StreamInteropWrap<A, S>,
    other: StreamInteropWrap<A, S>,
)
    requires
        one.inner() == other.inner(),
    ensures
        one == other,
{
}

/// What is said of a stream adapter is said of its field.
proof fn law_stream_adapter_shows_its_field<A, S>(wrap: StreamInteropWrap<A, S>)
    ensures
        wrap.inner() == wrap.inner,
{
}

/// However a stream is adapted, it is that stream which the adapter polls.
pub proof fn law_stream_is_adapted_as_it_is<A, S>(
    stream: S,
    actor: A,
    made: StreamInteropWrap<A, S>,
    adapted: StreamInteropWrap<A, S>,
    boxed: Box<StreamInteropWrap<A, S>>,
)
    requires
        call_ensures(StreamInteropWrap::<A, S>::new, (stream,), made),
        call_ensures(<S as StreamInterop<A>>::interop_actor, (stream, &actor), adapted),
        call_ensures(<S as StreamInterop<A>>::interop_actor_boxed, (stream, &actor), boxed),
    ensures
        made.inner() == stream,
        adapted.inner() == stream,
        boxed.inner() == stream,
{
}

/// The future that an adapter shows is the one that it polls.
pub proof fn law_adapter_shows_its_future<A, F>(wrap: FutureInteropWrap<A, F>, inner: &F)
    requires
        call_ensures(FutureInteropWrap::<A, F>::get_ref, (&wrap,), inner),
    ensures
        *inner == wrap.inner(),
{
}

/// A poll of an adapter is one poll of its future, for the same task and with this
/// actor and this context in scope. What that poll returned is what is returned,
/// and what it left of the actor, the context, the future and the task stays so.
pub proof fn law_adapter_polls_its_future<A, F, C, T, P>(
    wrap: &mut FutureInteropWrap<A, F>,
    actor: &mut A,
    ctx: &mut C,
    task: &mut Context<'_>,
    poll_in_scope: P,
    outcome: Poll<T>,
) where P: FnOnce(&mut A, &mut C, &mut F, &mut Context<'_>) -> Poll<T>
    requires
        call_ensures(
            FutureInteropWrap::<A, F>::poll::<C, T, P>,
            (wrap, actor, ctx, task, poll_in_scope),
            outcome,
        ),
    ensures
        exists|a: &mut A, c: &mut C, x: &mut F, t: &mut Context<'_>|
            {
                &&& #[trigger] call_ensures(poll_in_scope, (a, c, x, t), outcome)
                &&& *a == *old(actor) && *final(a) == *final(actor)
                &&& *c == *old(ctx) && *final(c) == *final(ctx)
                &&& *x == old(wrap).inner() && *final(x) == final(wrap).inner()
                &&& *t == *old(task) && *final(t) == *final(task)
            },
{
}

/// A poll of an adapter is one poll of its stream, for the same task and with this
/// actor and this context in scope. What that poll returned is what is returned,
/// and what it left of the actor, the context, the stream and the task stays so.
pub proof fn law_adapter_polls_its_stream<A, S, C, T, P>(
    wrap: &mut StreamInteropWrap<A, S>,
    actor: &mut A,
    ctx: &mut C,
    task: &mut Context<'_>,
    poll_in_scope: P,
    outcome: Poll<Option<T>>,
) where P: FnOnce(&mut A, &mut C, &mut S, &mut Context<'_>) -> Poll<Option<T>>
    requires
        call_ensures(
            StreamInteropWrap::<A, S>::poll_next::<C, T, P>,
            (wrap, actor, ctx, task, poll_in_scope),
            outcome,
        ),
    ensures
        exists|a: &mut A, c: &mut C, x: &mut S, t: &mut Context<'_>|
            {
                &&& #[trigger] call_ensures(poll_in_scope, (a, c, x, t), outcome)
                &&& *a == *old(actor) && *final(a) == *final(actor)
                &&& *c == *old(ctx) && *final(c) == *final(ctx)
                &&& *x == old(wrap).inner() && *final(x) == final(wrap).inner()
                &&& *t == *old(task) && *final(t) == *final(task)
            },
{
}

} // verus!
