//! Access to the actor in whose scope a future is polled.
use crate::interop::FutureInteropWrap;
use crate::local_handle;
use crate::local_handle::{Local, LocalHandle};
use futures::channel::oneshot;
use std::future::Future;
use vstd::prelude::*;

verus! {

/// The actor and the context in scope, as code that expects an actor of type `A`
/// with a context of type `C` finds them. `None` if nothing is in scope: outside
/// of any adapted future, and while another call has them borrowed. An inner
/// `None` stands for an actor or a context of another type.
pub type Scope<'a, A, C> = Option<(Option<&'a mut A>, Option<&'a mut C>)>;

/// Why the actor in scope could not be borrowed.
#[derive(Clone, Copy, Debug, PartialEq, Eq, Structural)]
pub enum ContextError {
    /// Nothing is in scope, or it is borrowed already.
    NotSet,
    /// Another actor is in scope.
    WrongActor,
}

impl ContextError {
    /// The text of a panic about this error.
    pub fn message(self) -> (text: &'static str)
        ensures
            text@ == match self {
                ContextError::NotSet =>
                    "cannot access a scoped thread local variable without calling `set` first"@,
                ContextError::WrongActor => "Future was spawned onto the wrong actor"@,
            },
    {
        match self {
            ContextError::NotSet => {
                "cannot access a scoped thread local variable without calling `set` first"
            },
            ContextError::WrongActor => "Future was spawned onto the wrong actor",
        }
    }
}

/// May be called from within a future spawned onto an actor context to gain
/// mutable access to the actor's state and context. The future must have been
/// wrapped using [`interop_actor`](crate::interop::FutureInterop::interop_actor) or
/// [`interop_actor_boxed`](crate::interop::FutureInterop::interop_actor_boxed).
///
/// Nested calls are refused, as only one mutable borrow can be given out at a
/// time. When the call is refused, `f` is not called, and the actor and the
/// context stay as they are.
pub fn with_ctx<A, C, F, R>(scope: Scope<'_, A, C>, f: F) -> (result: Result<
    R,
    ContextError,
>) where F: FnOnce(&mut A, &mut C) -> R
    requires
        scope matches Some((Some(actor), Some(ctx))) ==> (forall|a: &mut A, c: &mut C|
            *a == *actor && *c == *ctx ==> #[trigger] call_requires(f, (a, c))),
    ensures
        scope is None ==> result == Err::<R, ContextError>(ContextError::NotSet),
        scope matches Some((Some(actor), Some(ctx))) ==> exists|a: &mut A, c: &mut C, r: R|
            {
                &&& #[trigger] call_ensures(f, (a, c), r)
                &&& *a == *actor && *final(a) == *final(actor)
                &&& *c == *ctx && *final(c) == *final(ctx)
                &&& result == Ok::<R, ContextError>(r)
            },
        scope matches Some((Some(actor), None)) ==> {
            &&& result == Err::<R, ContextError>(ContextError::WrongActor)
            &&& *final(actor) == *actor
        },
        scope matches Some((None, Some(ctx))) ==> {
            &&& result == Err::<R, ContextError>(ContextError::WrongActor)
            &&& *final(ctx) == *ctx
        },
        scope matches Some((None, None)) ==> result == Err::<R, ContextError>(
            ContextError::WrongActor,
        ),
{
    let (actor, ctx) = match scope {
        Some(borrowed) => borrowed,
        None => return Err(ContextError::NotSet),
    };
    match (actor, ctx) {
        (Some(actor), Some(ctx)) => Ok(f(actor, ctx)),
        _ => Err(ContextError::WrongActor),
    }
}

/// May be called in the same places as [`with_ctx`] to run a chunk of async code
/// with exclusive access to an actor's state: no other futures spawned to this
/// actor will be polled during the critical section. Calling [`with_ctx`] from
/// within a critical section is allowed (and expected).
///
/// `wait` registers a future with a context, which then polls no other future
/// until that one is done. It is called on the context in scope with the part of
/// `f` that runs; the handle that is returned yields the output of `f`. When the
/// call is refused `wait` is not called, and the actor and the context stay as
/// they are.
pub fn critical_section<A, C, F: Future, W>(scope: Scope<'_, A, C>, f: F, wait: W) -> (result:
    Result<LocalHandle<F::Output>, ContextError>) where
    W: FnOnce(&mut C, FutureInteropWrap<A, Local<F>>),

    requires
        scope matches Some((Some(_), Some(ctx))) ==> (forall|
            c: &mut C,
            task: FutureInteropWrap<A, Local<F>>,
        |
            *c == *ctx && task.inner().inner() == f && task.inner().sender() is Some
                ==> #[trigger] call_requires(wait, (c, task))),
    ensures
        scope is None ==> result == Err::<LocalHandle<F::Output>, ContextError>(ContextError::NotSet),
        scope matches Some((Some(actor), Some(ctx))) ==> exists|
            c: &mut C,
            task: FutureInteropWrap<A, Local<F>>,
            handle: LocalHandle<F::Output>,
        |
            {
                &&& #[trigger] call_ensures(wait, (c, task), ())
                &&& *c == *ctx && *final(c) == *final(ctx)
                &&& *final(actor) == *actor
                &&& task.inner().inner() == f
                &&& #[trigger] local_handle::paired(task.inner(), handle)
                &&& task.inner().sender() is Some && handle.receiver() is Some
                &&& call_ensures(
                    oneshot::channel::<F::Output>,
                    (),
                    (task.inner().sender()->0, handle.receiver()->0),
                )
                &&& result == Ok::<LocalHandle<F::Output>, ContextError>(handle)
            },
        scope matches Some((Some(actor), None)) ==> {
            &&& result == Err::<LocalHandle<F::Output>, ContextError>(ContextError::WrongActor)
            &&& *final(actor) == *actor
        },
        scope matches Some((None, Some(ctx))) ==> {
            &&& result == Err::<LocalHandle<F::Output>, ContextError>(ContextError::WrongActor)
            &&& *final(ctx) == *ctx
        },
        scope matches Some((None, None)) ==> result == Err::<LocalHandle<F::Output>, ContextError>(
            ContextError::WrongActor,
        ),
{
    let (local, handle) = local_handle::local_handle(f);
    let hand_over = |actor: &mut A, ctx: &mut C|
        requires
            forall|c: &mut C, task: FutureInteropWrap<A, Local<F>>|
                *c == *ctx && task.inner() == local ==> #[trigger] call_requires(wait, (c, task)),
        ensures
            *final(actor) == *old(actor),
            exists|c: &mut C, task: FutureInteropWrap<A, Local<F>>|
                {
                    &&& #[trigger] call_ensures(wait, (c, task), ())
                    &&& *c == *old(ctx) && *final(c) == *final(ctx)
                    &&& task.inner() == local
                },
        { wait(ctx, FutureInteropWrap::new(local)) };
    match with_ctx(scope, hand_over) {
        Ok(()) => Ok(handle),
        Err(error) => Err(error),
    }
}

/// The actor and the context in scope are lent exactly if both are there, and then
/// to one call of `f`: it is called on this actor and this context, what it
/// returns is the result, and what it leaves of them stays so.
pub proof fn law_scope_is_lent<A, C, F, R>(
    actor: &mut A,
    ctx: &mut C,
    f: F,
    result: Result<R, ContextError>,
) where F: FnOnce(&mut A, &mut C) -> R
    requires
        call_ensures(with_ctx::<A, C, F, R>, (Some((Some(actor), Some(ctx))), f), result),
    ensures
        exists|a: &mut A, c: &mut C, r: R|
            {
                &&& #[trigger] call_ensures(f, (a, c), r)
                &&& *a == *old(actor) && *final(a) == *final(actor)
                &&& *c == *old(ctx) && *final(c) == *final(ctx)
                &&& result == Ok::<R, ContextError>(r)
            },
{
}

/// Without an actor and a context in scope a call is refused: for want of a scope
/// if there is none, and for the wrong actor if either is missing. What is there
/// stays as it is.
pub proof fn law_missing_scope_is_refused<A, C, F, R>(
    actor: &mut A,
    ctx: &mut C,
    f: F,
    scope: Scope<'_, A, C>,
    result: Result<R, ContextError>,
) where F: FnOnce(&mut A, &mut C) -> R
    requires
        call_ensures(with_ctx::<A, C, F, R>, (scope, f), result),
    ensures
        scope is None ==> result == Err::<R, ContextError>(ContextError::NotSet),
        scope == Some((Some(actor), None::<&mut C>)) ==> result == Err::<R, ContextError>(
            ContextError::WrongActor,
        ) && *final(actor) == *old(actor),
        scope == Some((None::<&mut A>, Some(ctx))) ==> result == Err::<R, ContextError>(
            ContextError::WrongActor,
        ) && *final(ctx) == *old(ctx),
        scope == Some((None::<&mut A>, None::<&mut C>)) ==> result == Err::<R, ContextError>(
            ContextError::WrongActor,
        ),
{
}

/// A critical section is handed to the context in scope, to be waited for: `wait` is
/// called on this context with the part of `f` that runs, and one call of
/// `oneshot::channel` made that part's sender and the receiver of the handle
/// that is returned. The actor stays as it is.
pub proof fn law_section_is_waited_for<A, C, F: Future, W>(
    actor: &mut A,
    ctx: &mut C,
    f: F,
    wait: W,
    result: Result<LocalHandle<F::Output>, ContextError>,
) where W: FnOnce(&mut C, FutureInteropWrap<A, Local<F>>)
    requires
        call_ensures(
            critical_section::<A, C, F, W>,
            (Some((Some(actor), Some(ctx))), f, wait),
            result,
        ),
    ensures
        result is Ok,
        result->Ok_0.receiver() is Some,
        exists|c: &mut C, task: FutureInteropWrap<A, Local<F>>|
            {
                &&& #[trigger] call_ensures(wait, (c, task), ())
                &&& *c == *old(ctx) && *final(c) == *final(ctx)
                &&& task.inner().inner() == f
                &&& task.inner().sender() is Some
                &&& call_ensures(
                    oneshot::channel::<F::Output>,
                    (),
                    (task.inner().sender()->0, result->Ok_0.receiver()->0),
                )
            },
        *final(actor) == *old(actor),
{
}

/// Without an actor and a context in scope a critical section is refused as a
/// borrow is, and what is there stays as it is.
pub proof fn law_section_without_scope_is_refused<A, C, F: Future, W>(
    actor: &mut A,
    ctx: &mut C,
    f: F,
    wait: W,
    scope: Scope<'_, A, C>,
    result: Result<LocalHandle<F::Output>, ContextError>,
) where W: FnOnce(&mut C, FutureInteropWrap<A, Local<F>>)
    requires
        call_ensures(critical_section::<A, C, F, W>, (scope, f, wait), result),
    ensures
        scope is None ==> result == Err::<LocalHandle<F::Output>, ContextError>(
            ContextError::NotSet,
        ),
        scope == Some((Some(actor), None::<&mut C>)) ==> result == Err::<
            LocalHandle<F::Output>,
            ContextError,
        >(ContextError::WrongActor) && *final(actor) == *old(actor),
        scope == Some((None::<&mut A>, Some(ctx))) ==> result == Err::<
            LocalHandle<F::Output>,
            ContextError,
        >(ContextError::WrongActor) && *final(ctx) == *old(ctx),
        scope == Some((None::<&mut A>, None::<&mut C>)) ==> result == Err::<
            LocalHandle<F::Output>,
            ContextError,
        >(ContextError::WrongActor),
{
}

/// The text of a panic tells the two errors apart.
pub proof fn law_errors_have_their_texts(error: ContextError, text: &'static str)
    requires
        call_ensures(ContextError::message, (error,), text),
    ensures
        error is NotSet ==> text@
            == "cannot access a scoped thread local variable without calling `set` first"@,
        error is WrongActor ==> text@ == "Future was spawned onto the wrong actor"@,
{
}

} // verus!
