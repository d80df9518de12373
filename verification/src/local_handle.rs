//! A future split in two: [`Local`] runs it where it was spawned, and
//! [`LocalHandle`] yields its output where it is awaited.
use crate::transfer;
use crate::transfer::{Peer, Polled};
use futures::channel::oneshot;
use std::future::Future;
use std::task::{Context, Poll};
use vstd::prelude::*;

verus! {

/// The handle to a local future returned by [`local_handle`]. When this is
/// dropped, the local future is woken up to be dropped by its executor.
#[must_use]
#[derive(Debug)]
#[verifier::reject_recursive_types(T)]
pub struct LocalHandle<T> {
    // Gone once the handle was ready.
    rx: Option<oneshot::Receiver<T>>,
}

/// The local future went away before it had an output, or the output was yielded
/// already.
#[derive(Clone, Copy, Debug, PartialEq, Eq, Structural)]
pub struct Abandoned;

/// What a handle makes of what its receiver yields.
pub open spec fn resolution<T>(answer: Poll<Result<T, oneshot::Canceled>>) -> Poll<
    Result<T, Abandoned>,
> {
    match answer {
        Poll::Ready(Ok(output)) => Poll::Ready(Ok(output)),
        Poll::Ready(Err(_)) => Poll::Ready(Err(Abandoned)),
        Poll::Pending => Poll::Pending,
    }
}

/// The handle was polled once for the task `cx`, and yielded `outcome`. A handle
/// that has its receiver polled it once: it keeps what is left of the receiver,
/// and yields what is made of the answer. One that was ready before has none.
pub open spec fn yielded<T>(
    before: LocalHandle<T>,
    cx: Context<'_>,
    after: LocalHandle<T>,
    outcome: Poll<Result<T, Abandoned>>,
) -> bool {
    match before.receiver() {
        Some(rx) => exists|polled: Polled<T>|
            {
                &&& #[trigger] transfer::received(rx, cx, polled)
                &&& after.receiver() == polled.left()
                &&& outcome == resolution(polled.answer())
            },
        None => after.receiver() is None && outcome == Poll::Ready(Err::<T, Abandoned>(Abandoned)),
    }
}

impl<T> LocalHandle<T> {
    /// The receiving half of the channel to the local future, until the handle
    /// was ready.
    pub closed spec fn receiver(&self) -> Option<oneshot::Receiver<T>> {
        self.rx
    }

    /// Polls for the output of the local future.
    ///
    /// Once the handle was ready, it yields [`Abandoned`] whenever it is polled
    /// again. Until then it does so only if the local future sent nothing and
    /// never will.
    pub fn poll(&mut self, cx: &mut Context<'_>) -> (outcome: Poll<Result<T, Abandoned>>)
        ensures
            yielded(*old(self), *old(cx), *final(self), outcome),
            *final(cx) == *old(cx),
            outcome is Pending ==> (old(self).receiver() matches Some(rx) && transfer::received(
                rx,
                *old(cx),
                Polled::Pending(rx),
            )),
            outcome matches Poll::Ready(Ok(output)) ==> (old(self).receiver() matches Some(rx)
                && transfer::received(rx, *old(cx), Polled::Ready(Ok(output)))),
            outcome matches Poll::Ready(Err(_)) ==> (old(self).receiver() matches Some(rx)
                ==> exists|error: oneshot::Canceled| #[trigger]
                transfer::received(rx, *old(cx), Polled::Ready(Err(error)))),
            outcome is Pending ==> old(self).receiver() is Some && *final(self) == *old(self),
            outcome is Ready ==> final(self).receiver() is None,
            old(self).receiver() is None ==> outcome == Poll::Ready(Err::<T, Abandoned>(Abandoned)),
            outcome == Poll::Ready(Err::<T, Abandoned>(Abandoned)) ==> (old(
                self,
            ).receiver() matches Some(rx) ==> (forall|tx: oneshot::Sender<T>, value: T| #[trigger]
                transfer::connected(tx, rx) ==> !#[trigger] transfer::sent(tx, value))),
    {
        self.poll_knowing(cx, Peer::Unknown)
    }

    /// Polls for the output of a local future that is known to have sent it: the
    /// handle is ready with that output.
    pub fn poll_sent(&mut self, cx: &mut Context<'_>) -> (outcome: Poll<Result<T, Abandoned>>)
        requires
            old(self).receiver() matches Some(rx) && transfer::filled(rx),
        ensures
            yielded(*old(self), *old(cx), *final(self), outcome),
            *final(cx) == *old(cx),
            outcome matches Poll::Ready(Ok(output)) && transfer::received(
                old(self).receiver()->0,
                *old(cx),
                Polled::Ready(Ok(output)),
            ),
            final(self).receiver() is None,
            forall|tx: oneshot::Sender<T>, output: T| #[trigger]
                transfer::connected(tx, old(self).receiver()->0) && #[trigger] transfer::sent(
                    tx,
                    output,
                ) ==> outcome == Poll::Ready(Ok::<T, Abandoned>(output)),
    {
        let ghost rx = self.rx->0;
        let outcome = self.poll_knowing(cx, Peer::Sent);
        proof {
            let polled = choose|polled: Polled<T>|
                {
                    &&& #[trigger] transfer::received(rx, *old(cx), polled)
                    &&& self.receiver() == polled.left()
                    &&& outcome == resolution(polled.answer())
                };
            assert forall|tx: oneshot::Sender<T>, output: T| #[trigger]
                transfer::connected(tx, rx) && #[trigger] transfer::sent(
                tx,
                output,
            ) implies outcome == Poll::Ready(Ok::<T, Abandoned>(output)) by {
                transfer::law_sent_is_not_lost(tx, rx, *old(cx), polled, output);
            }
        }
        outcome
    }

    /// Polls for the output, with what is known of the local future's sender.
    fn poll_knowing(&mut self, cx: &mut Context<'_>, peer: Peer<'_, T>) -> (outcome: Poll<
        Result<T, Abandoned>,
    >)
        requires
            old(self).receiver() matches Some(rx) ==> peer.holds(rx),
        ensures
            yielded(*old(self), *old(cx), *final(self), outcome),
            *final(cx) == *old(cx),
            outcome is Pending ==> (old(self).receiver() matches Some(rx) && transfer::received(
                rx,
                *old(cx),
                Polled::Pending(rx),
            )),
            outcome matches Poll::Ready(Ok(output)) ==> (old(self).receiver() matches Some(rx)
                && transfer::received(rx, *old(cx), Polled::Ready(Ok(output)))),
            outcome matches Poll::Ready(Err(_)) ==> (old(self).receiver() matches Some(rx)
                ==> exists|error: oneshot::Canceled| #[trigger]
                transfer::received(rx, *old(cx), Polled::Ready(Err(error)))),
            outcome is Pending ==> old(self).receiver() is Some && *final(self) == *old(self),
            outcome is Ready ==> final(self).receiver() is None,
            outcome == Poll::Ready(Err::<T, Abandoned>(Abandoned)) ==> (old(
                self,
            ).receiver() matches Some(rx) ==> (forall|tx: oneshot::Sender<T>, value: T| #[trigger]
                transfer::connected(tx, rx) ==> !#[trigger] transfer::sent(tx, value))),
            old(self).receiver() is Some && peer is Waiting ==> outcome is Pending,
            old(self).receiver() is Some && peer is Sent ==> outcome is Ready,
    {
        let rx = match self.rx.take() {
            Some(rx) => rx,
            None => return Poll::Ready(Err(Abandoned)),
        };
        let ghost before = rx;
        let polled = transfer::receive(rx, cx, peer);
        let ghost seen = polled;
        assert(transfer::received(before, *old(cx), seen));
        match polled {
            Polled::Pending(rx) => {
                proof {
                    transfer::law_pending_is_unchanged(before, *old(cx), seen);
                }
                self.rx = Some(rx);
                Self::resolve(Poll::Pending)
            },
            Polled::Ready(result) => {
                assert(seen matches Polled::Ready(Err(error)) ==> transfer::received(
                    before,
                    *old(cx),
                    Polled::Ready(Err(error)),
                ));
                assert forall|tx: oneshot::Sender<T>, value: T| #[trigger]
                    transfer::connected(tx, before) && seen matches Polled::Ready(
                    Err(_),
                ) implies !#[trigger] transfer::sent(tx, value) by {
                    if transfer::sent(tx, value) {
                        transfer::law_sent_is_not_lost(tx, before, *old(cx), seen, value);
                    }
                }
                Self::resolve(Poll::Ready(result))
            },
        }
    }

    /// Turns what the receiver yields into what the handle yields: the output as
    /// it is, and the end of the channel as [`Abandoned`].
    pub fn resolve(answer: Poll<Result<T, oneshot::Canceled>>) -> (outcome: Poll<
        Result<T, Abandoned>,
    >)
        ensures
            outcome == resolution(answer),
            answer is Pending ==> outcome is Pending,
            answer matches Poll::Ready(Ok(output)) ==> outcome == Poll::Ready(
                Ok::<T, Abandoned>(output),
            ),
            answer matches Poll::Ready(Err(_)) ==> outcome == Poll::Ready(
                Err::<T, Abandoned>(Abandoned),
            ),
    {
        match answer {
            Poll::Ready(Ok(output)) => Poll::Ready(Ok(output)),
            // The sender was dropped.
            Poll::Ready(Err(_)) => Poll::Ready(Err(Abandoned)),
            Poll::Pending => Poll::Pending,
        }
    }
}

/// A future which sends its output to the corresponding [`LocalHandle`].
/// Created by [`local_handle`].
#[must_use]
#[verifier::reject_recursive_types(Fut)]
pub struct Local<Fut: Future> {
    tx: Option<oneshot::Sender<Fut::Output>>,
    future: Fut,
}

/// What a poll of a local future does once its own future gave `outcome`: an
/// output is sent, and the sender `tx` used up; until there is one, the sender
/// is kept. `left` is the sender that is left, `returned` what the poll returns.
pub open spec fn forwarded<T>(
    tx: oneshot::Sender<T>,
    outcome: Poll<T>,
    left: Option<oneshot::Sender<T>>,
    returned: Poll<()>,
) -> bool {
    match outcome {
        Poll::Ready(output) => returned is Ready && left is None && transfer::sent(tx, output),
        Poll::Pending => returned is Pending && left == Some(tx),
    }
}

impl<Fut: Future> Local<Fut> {
    /// The sending half of the channel to the handle, until an output was sent.
    pub closed spec fn sender(&self) -> Option<oneshot::Sender<Fut::Output>> {
        self.tx
    }

    /// The future that runs here.
    pub closed spec fn inner(&self) -> Fut {
        self.future
    }

    /// Whether the output is still to come. Only then can this be polled.
    pub fn is_open(&self) -> (open: bool)
        ensures
            open == (self.sender() is Some),
    {
        self.tx.is_some()
    }

    /// The future that runs here.
    pub fn future(&self) -> (future: &Fut)
        ensures
            *future == self.inner(),
    {
        &self.future
    }

    /// Polls the future, unless the handle is gone, and sends its output to the
    /// handle. `poll_future` polls the future itself. The poll is one turn of the
    /// local future.
    pub fn poll<P>(&mut self, cx: &mut Context<'_>, poll_future: P) -> (returned: Poll<()>) where
        P: FnOnce(&mut Fut, &mut Context<'_>) -> Poll<Fut::Output>,

        requires
            old(self).sender() is Some,
            forall|f: &mut Fut, c: &mut Context<'_>|
                *f == old(self).inner() && *c == *old(cx) ==> #[trigger] call_requires(
                    poll_future,
                    (f, c),
                ),
        ensures
            exists|turn: Turn<Fut>|
                {
                    &&& #[trigger] turn.taken()
                    &&& turn.before == *old(self) && turn.after == *final(self)
                    &&& turn.returned == returned
                    &&& transfer::hangup_answer(old(self).sender()->0, *old(cx), turn.canceled)
                    &&& turn.canceled is Ready ==> *final(cx) == *old(cx)
                    &&& turn.canceled is Pending ==> exists|f: &mut Fut, c: &mut Context<'_>|
                        {
                            &&& #[trigger] call_ensures(poll_future, (f, c), turn.outcome)
                            &&& *f == old(self).inner() && *final(f) == final(self).inner()
                            &&& *c == *old(cx) && *final(c) == *final(cx)
                        }
                },
            exists|
                s: &mut oneshot::Sender<Fut::Output>,
                x: &mut Context<'_>,
                answer: Poll<()>,
            |
                {
                    &&& #[trigger] call_ensures(
                        oneshot::Sender::<Fut::Output>::poll_canceled,
                        (s, x),
                        answer,
                    )
                    &&& *s == old(self).sender()->0 && *x == *old(cx)
                    &&& answer is Ready ==> {
                        &&& returned is Ready
                        &&& *final(self) == *old(self)
                        &&& *final(cx) == *old(cx)
                    }
                    &&& answer is Pending ==> exists|
                        f: &mut Fut,
                        y: &mut Context<'_>,
                        outcome: Poll<Fut::Output>,
                    |
                        {
                            &&& #[trigger] call_ensures(poll_future, (f, y), outcome)
                            &&& *f == old(self).inner() && *final(f) == final(self).inner()
                            &&& *y == *old(cx) && *final(y) == *final(cx)
                            &&& outcome is Pending ==> returned is Pending && final(self).sender()
                                == old(self).sender()
                            &&& outcome matches Poll::Ready(output) ==> {
                                &&& returned is Ready
                                &&& final(self).sender() is None
                                &&& exists|result: Result<(), Fut::Output>|
                                    call_ensures(
                                        oneshot::Sender::<Fut::Output>::send,
                                        (old(self).sender()->0, output),
                                        result,
                                    )
                            }
                        }
                },
    {
        let canceled = self.tx.as_mut().unwrap().poll_canceled(cx);
        assert(transfer::hangup_answer(old(self).sender()->0, *old(cx), canceled));
        self.poll_unless(canceled, cx, poll_future)
    }

    /// Polls the future unless `canceled` is ready, and sends its output to the
    /// handle. `canceled` tells whether the handle is gone.
    pub fn poll_unless<P>(
        &mut self,
        canceled: Poll<()>,
        cx: &mut Context<'_>,
        poll_future: P,
    ) -> (returned: Poll<()>) where P: FnOnce(&mut Fut, &mut Context<'_>) -> Poll<Fut::Output>
        requires
            old(self).sender() is Some,
            canceled is Pending ==> (forall|f: &mut Fut, c: &mut Context<'_>|
                *f == old(self).inner() && *c == *old(cx) ==> #[trigger] call_requires(
                    poll_future,
                    (f, c),
                )),
        ensures
            exists|turn: Turn<Fut>|
                {
                    &&& #[trigger] turn.taken()
                    &&& turn.before == *old(self) && turn.after == *final(self)
                    &&& turn.returned == returned
                    &&& turn.canceled == canceled
                    &&& canceled is Ready ==> *final(cx) == *old(cx)
                    &&& canceled is Pending ==> exists|f: &mut Fut, c: &mut Context<'_>|
                        {
                            &&& #[trigger] call_ensures(poll_future, (f, c), turn.outcome)
                            &&& *f == old(self).inner() && *final(f) == final(self).inner()
                            &&& *c == *old(cx) && *final(c) == *final(cx)
                        }
                },
            canceled is Ready ==> {
                &&& returned is Ready
                &&& *final(self) == *old(self)
                &&& *final(cx) == *old(cx)
            },
            canceled is Pending ==> exists|
                f: &mut Fut,
                y: &mut Context<'_>,
                outcome: Poll<Fut::Output>,
            |
                {
                    &&& #[trigger] call_ensures(poll_future, (f, y), outcome)
                    &&& *f == old(self).inner() && *final(f) == final(self).inner()
                    &&& *y == *old(cx) && *final(y) == *final(cx)
                    &&& outcome is Pending ==> returned is Pending && final(self).sender()
                        == old(self).sender()
                    &&& outcome matches Poll::Ready(output) ==> {
                        &&& returned is Ready
                        &&& final(self).sender() is None
                        &&& exists|result: Result<(), Fut::Output>|
                            call_ensures(
                                oneshot::Sender::<Fut::Output>::send,
                                (old(self).sender()->0, output),
                                result,
                            )
                    }
                },
    {
        let ghost before = *self;
        if let Poll::Ready(()) = canceled {
            // Cancelled, bail out.
            proof {
                let turn = Turn {
                    before,
                    canceled,
                    outcome: Poll::Pending,
                    after: *self,
                    returned: Poll::Ready(()),
                };
                assert(turn.taken());
            }
            return Poll::Ready(());
        }
        let outcome = poll_future(&mut self.future, cx);
        let ghost seen = outcome;
        let output = match outcome {
            Poll::Ready(output) => output,
            Poll::Pending => {
                proof {
                    let turn = Turn {
                        before,
                        canceled,
                        outcome: seen,
                        after: *self,
                        returned: Poll::Pending,
                    };
                    assert(turn.taken());
                }
                return Poll::Pending;
            },
        };
        // If the receiving end has gone away then that's ok, the output is
        // dropped.
        let _ = self.tx.take().unwrap().send(output);
        proof {
            let turn = Turn {
                before,
                canceled,
                outcome: seen,
                after: *self,
                returned: Poll::Ready(()),
            };
            assert(turn.taken());
        }
        Poll::Ready(())
    }

    /// Polls the handle of this local future, whose output is still to come. The
    /// handle is pending, and both halves stay as they are.
    pub fn poll_handle(
        &self,
        handle: &mut LocalHandle<Fut::Output>,
        cx: &mut Context<'_>,
    ) -> (outcome: Poll<Result<Fut::Output, Abandoned>>)
        requires
            paired(*self, *old(handle)),
        ensures
            yielded(*old(handle), *old(cx), *final(handle), outcome),
            outcome is Pending,
            transfer::received(
                old(handle).receiver()->0,
                *old(cx),
                Polled::Pending(old(handle).receiver()->0),
            ),
            *final(handle) == *old(handle),
            *final(cx) == *old(cx),
    {
        handle.poll_knowing(cx, Peer::Waiting(self.tx.as_ref().unwrap()))
    }
}

/// The local future and the handle are the two halves of one future, and the
/// output is still to come.
pub open spec fn paired<Fut: Future>(local: Local<Fut>, handle: LocalHandle<Fut::Output>) -> bool {
    &&& local.sender() matches Some(tx)
    &&& handle.receiver() matches Some(rx)
    &&& transfer::connected(tx, rx)
}

/// Splits a future into the part that runs it and the part that yields its
/// output.
pub fn local_handle<Fut: Future>(future: Fut) -> (halves: (Local<Fut>, LocalHandle<Fut::Output>))
    ensures
        halves.0.inner() == future,
        paired(halves.0, halves.1),
        halves.0.sender() is Some && halves.1.receiver() is Some,
        call_ensures(
            oneshot::channel::<Fut::Output>,
            (),
            (halves.0.sender()->0, halves.1.receiver()->0),
        ),
{
    let (tx, rx) = oneshot::channel();
    (Local { future, tx: Some(tx) }, LocalHandle { rx: Some(rx) })
}

/// A poll of a local future: what it was before, whether its handle was found
/// gone, what its own future gave if it was not, what it was after, and what the
/// poll returned.
#[verifier::reject_recursive_types(Fut)]
pub struct Turn<Fut: Future> {
    pub before: Local<Fut>,
    pub canceled: Poll<()>,
    pub outcome: Poll<Fut::Output>,
    pub after: Local<Fut>,
    pub returned: Poll<()>,
}

impl<Fut: Future> Turn<Fut> {
    /// The poll went as polls of a local future go.
    pub open spec fn taken(self) -> bool {
        &&& self.before.sender() is Some
        &&& match self.canceled {
            Poll::Ready(()) => self.returned is Ready && self.after == self.before,
            Poll::Pending => forwarded(
                self.before.sender()->0,
                self.outcome,
                self.after.sender(),
                self.returned,
            ),
        }
    }

    /// The handle was there, and the future was not done.
    pub open spec fn body_pending(self) -> bool {
        self.canceled is Pending && self.outcome is Pending
    }

    /// The handle was there, and the future gave its output.
    pub open spec fn gave(self, output: Fut::Output) -> bool {
        self.canceled is Pending && self.outcome == Poll::Ready(output)
    }
}

/// The turns were taken one after the other by one local future.
pub open spec fn taken_in_order<Fut: Future>(turns: Seq<Turn<Fut>>) -> bool {
    &&& forall|i: int| 0 <= i < turns.len() ==> (#[trigger] turns[i]).taken()
    &&& forall|i: int, j: int|
        0 <= i && j == i + 1 && j < turns.len() ==> (#[trigger] turns[i]).after == (
        #[trigger] turns[j]).before
}

/// A local future is done when its own future is, and no sooner while its handle
/// is there: however often it is polled, a turn returns `Pending` exactly if the
/// handle was there and the future was not done. Once the future gave its output,
/// the output was sent and there is no further turn; until then the local future
/// has the sender it started with, before and after each turn.
pub proof fn law_done_when_future_is<Fut: Future>(turns: Seq<Turn<Fut>>, i: int)
    requires
        taken_in_order(turns),
        0 <= i < turns.len(),
    ensures
        turns[i].before.sender() == turns[0].before.sender(),
        turns[i].returned is Pending <==> turns[i].body_pending(),
        turns[i].body_pending() ==> turns[i].after.sender() == turns[0].before.sender()
            && turns[i].after.sender() is Some,
        turns[i].canceled is Pending && turns[i].outcome is Ready ==> i == turns.len() - 1,
        forall|output: Fut::Output| #[trigger]
            turns[i].gave(output) ==> transfer::sent(turns[0].before.sender()->0, output),
    decreases i,
{
    assert(turns[i].taken());
    if i > 0 {
        law_done_when_future_is(turns, i - 1);
        assert(turns[i - 1].taken());
        assert(turns[i - 1].after == turns[i].before);
    }
    if i + 1 < turns.len() {
        assert(turns[i + 1].taken());
        assert(turns[i].after == turns[i + 1].before);
    }
}

/// A local future whose handle is gone is done at once and is not run: a poll
/// that finds the handle gone returns `Ready` and leaves everything as it was, so
/// that a local future whose handle was gone at each poll is what it was when it
/// was made.
pub proof fn law_hangup_stops_future<Fut: Future>(turns: Seq<Turn<Fut>>, i: int)
    requires
        taken_in_order(turns),
        0 <= i < turns.len(),
    ensures
        turns[i].canceled is Ready ==> turns[i].returned is Ready && turns[i].after
            == turns[i].before,
        (forall|k: int| 0 <= k <= i ==> (#[trigger] turns[k]).canceled is Ready) ==> turns[i].after
            == turns[0].before,
    decreases i,
{
    assert(turns[i].taken());
    if i > 0 {
        law_hangup_stops_future(turns, i - 1);
        assert(turns[i - 1].after == turns[i].before);
    }
}

/// The output of a future is what its handle yields: once the last turn of the
/// local half gave `output`, a handle that was not ready before is filled, so
/// that [`poll_sent`](LocalHandle::poll_sent) yields `output`. No poll of the
/// handle yields another value, nor [`Abandoned`].
pub proof fn law_handle_yields_output<Fut: Future>(
    turns: Seq<Turn<Fut>>,
    output: Fut::Output,
    before: LocalHandle<Fut::Output>,
    cx: Context<'_>,
    after: LocalHandle<Fut::Output>,
    outcome: Poll<Result<Fut::Output, Abandoned>>,
)
    requires
        turns.len() > 0,
        taken_in_order(turns),
        paired(turns[0].before, before),
        turns.last().gave(output),
        yielded(before, cx, after, outcome),
    ensures
        transfer::filled(before.receiver()->0),
        transfer::sent(turns[0].before.sender()->0, output),
        outcome is Pending || outcome == Poll::Ready(Ok::<Fut::Output, Abandoned>(output)),
{
    let tx = turns[0].before.sender()->0;
    law_done_when_future_is(turns, turns.len() - 1);
    law_sent_output_is_not_lost(turns[0].before, before, cx, after, outcome, output);
    assert(transfer::connected(tx, before.receiver()->0) && transfer::sent(tx, output));
}

/// A handle never makes up a value: what it yields was given to the sender of its
/// local half.
pub proof fn law_handle_value_was_sent<Fut: Future>(
    local: Local<Fut>,
    before: LocalHandle<Fut::Output>,
    cx: Context<'_>,
    after: LocalHandle<Fut::Output>,
    value: Fut::Output,
)
    requires
        paired(local, before),
        yielded(before, cx, after, Poll::Ready(Ok(value))),
    ensures
        transfer::sent(local.sender()->0, value),
{
    transfer::law_received_is_sent(local.sender()->0, before.receiver()->0, cx, value);
}

/// An output that was sent is not lost: a handle whose local half has sent an
/// output yields nothing but that output.
pub proof fn law_sent_output_is_not_lost<Fut: Future>(
    local: Local<Fut>,
    before: LocalHandle<Fut::Output>,
    cx: Context<'_>,
    after: LocalHandle<Fut::Output>,
    outcome: Poll<Result<Fut::Output, Abandoned>>,
    output: Fut::Output,
)
    requires
        paired(local, before),
        yielded(before, cx, after, outcome),
        transfer::sent(local.sender()->0, output),
    ensures
        outcome is Pending || outcome == Poll::Ready(Ok::<Fut::Output, Abandoned>(output)),
{
    let rx = before.receiver()->0;
    let polled = choose|polled: Polled<Fut::Output>|
        {
            &&& #[trigger] transfer::received(rx, cx, polled)
            &&& after.receiver() == polled.left()
            &&& outcome == resolution(polled.answer())
        };
    transfer::law_sent_is_not_lost(local.sender()->0, rx, cx, polled, output);
}

/// Polling a handle in vain changes nothing: a handle that is pending is what it
/// was, and still the handle of the same local future. Its receiver was polled for
/// the task `cx`, and was itself pending.
pub proof fn law_pending_handle_is_unchanged<Fut: Future>(
    local: Local<Fut>,
    before: LocalHandle<Fut::Output>,
    cx: Context<'_>,
    after: LocalHandle<Fut::Output>,
)
    requires
        paired(local, before),
        yielded(before, cx, after, Poll::Pending),
    ensures
        after == before,
        paired(local, after),
        transfer::received(before.receiver()->0, cx, Polled::Pending(before.receiver()->0)),
{
    let rx = before.receiver()->0;
    transfer::law_pending_is_unchanged(
        rx,
        cx,
        choose|polled: Polled<Fut::Output>|
            {
                &&& #[trigger] transfer::received(rx, cx, polled)
                &&& after.receiver() == polled.left()
                &&& polled is Pending
            },
    );
}

/// A handle is ready once: a poll that is ready leaves it without its receiver,
/// and from then on each poll yields [`Abandoned`] and leaves it so.
pub proof fn law_ready_once<T>(
    before: LocalHandle<T>,
    cx: Context<'_>,
    after: LocalHandle<T>,
    outcome: Poll<Result<T, Abandoned>>,
)
    requires
        yielded(before, cx, after, outcome),
    ensures
        outcome is Ready <==> after.receiver() is None,
        before.receiver() is None ==> outcome == Poll::Ready(Err::<T, Abandoned>(Abandoned)),
{
}

/// Poll `i` of a handle, for the task `cxs[i]`, took it from `handles[i]` to
/// `handles[i + 1]` and yielded `outcomes[i]`.
pub open spec fn yielded_in_order<T>(
    handles: Seq<LocalHandle<T>>,
    cxs: Seq<Context<'_>>,
    outcomes: Seq<Poll<Result<T, Abandoned>>>,
) -> bool {
    &&& handles.len() == outcomes.len() + 1
    &&& cxs.len() == outcomes.len()
    &&& forall|i: int|
        #![trigger outcomes[i]]
        0 <= i < outcomes.len() ==> yielded(handles[i], cxs[i], handles[i + 1], outcomes[i])
}

/// An output is yielded at most once: after a handle was ready, every later poll
/// of it yields [`Abandoned`].
pub proof fn law_output_is_yielded_once<T>(
    handles: Seq<LocalHandle<T>>,
    cxs: Seq<Context<'_>>,
    outcomes: Seq<Poll<Result<T, Abandoned>>>,
    first: int,
    later: int,
)
    requires
        yielded_in_order(handles, cxs, outcomes),
        0 <= first < later < outcomes.len(),
        outcomes[first] is Ready,
    ensures
        handles[later].receiver() is None,
        outcomes[later] == Poll::Ready(Err::<T, Abandoned>(Abandoned)),
    decreases later,
{
    if later > first + 1 {
        law_output_is_yielded_once(handles, cxs, outcomes, first, later - 1);
    }
    law_ready_once(handles[later - 1], cxs[later - 1], handles[later], outcomes[later - 1]);
    law_ready_once(handles[later], cxs[later], handles[later + 1], outcomes[later]);
}

/// A local future is its sender and its future, and nothing else.
pub proof fn law_local_is_its_parts<Fut: Future>(one: Local<Fut>, other: Local<Fut>)
    requires
        one.sender() == other.sender(),
        one.inner() == other.inner(),
    ensures
        one == other,
{
}

/// A handle is its receiver, and nothing else.
pub proof fn law_handle_is_its_receiver<T>(one: LocalHandle<T>, other: LocalHandle<T>)
    requires
        one.receiver() == other.receiver(),
    ensures
        one == other,
{
}

/// What is said of a local future is said of its fields.
proof fn law_local_shows_its_fields<Fut: Future>(local: Local<Fut>)
    ensures
        local.sender() == local.tx,
        local.inner() == local.future,
{
}

/// What is said of a handle is said of its field.
proof fn law_handle_shows_its_field<T>(handle: LocalHandle<T>)
    ensures
        handle.receiver() == handle.rx,
{
}

/// A section is skipped only if its handle is gone: if a poll is done and left the
/// local future as it was, the channel was asked for the task `cx` whether the handle
/// is gone, and said so.
pub proof fn law_section_is_skipped_only_on_hangup<Fut: Future, P>(
    local: &mut Local<Fut>,
    cx: &mut Context<'_>,
    poll_future: P,
    returned: Poll<()>,
) where
    P: FnOnce(&mut Fut, &mut Context<'_>) -> Poll<Fut::Output>,

    requires
        call_ensures(Local::<Fut>::poll::<P>, (local, cx, poll_future), returned),
        old(local).sender() is Some,
        returned is Ready,
        *final(local) == *old(local),
    ensures
        exists|s: &mut oneshot::Sender<Fut::Output>, x: &mut Context<'_>, answer: Poll<()>|
            {
                &&& #[trigger] call_ensures(
                    oneshot::Sender::<Fut::Output>::poll_canceled,
                    (s, x),
                    answer,
                )
                &&& answer is Ready
                &&& *s == old(local).sender()->0 && *x == *old(cx)
            },
{
}

/// A section runs only while its handle is there: if a poll is pending, or changed
/// the local future, the channel was asked for the task `cx` whether the handle is
/// gone, and said that it is not.
pub proof fn law_section_runs_only_with_its_handle<Fut: Future, P>(
    local: &mut Local<Fut>,
    cx: &mut Context<'_>,
    poll_future: P,
    returned: Poll<()>,
) where
    P: FnOnce(&mut Fut, &mut Context<'_>) -> Poll<Fut::Output>,

    requires
        call_ensures(Local::<Fut>::poll::<P>, (local, cx, poll_future), returned),
        old(local).sender() is Some,
        returned is Pending || *final(local) != *old(local),
    ensures
        exists|s: &mut oneshot::Sender<Fut::Output>, x: &mut Context<'_>|
            {
                &&& #[trigger] call_ensures(
                    oneshot::Sender::<Fut::Output>::poll_canceled,
                    (s, x),
                    Poll::Pending,
                )
                &&& *s == old(local).sender()->0 && *x == *old(cx)
            },
{
}

/// A section that is pending goes on at the next poll: its future was polled, for
/// the task `cx`, and was pending; the local future has the sender that it had, and
/// can be polled again.
pub proof fn law_pending_section_goes_on<Fut: Future, P>(
    local: &mut Local<Fut>,
    cx: &mut Context<'_>,
    poll_future: P,
    returned: Poll<()>,
) where
    P: FnOnce(&mut Fut, &mut Context<'_>) -> Poll<Fut::Output>,

    requires
        call_ensures(Local::<Fut>::poll::<P>, (local, cx, poll_future), returned),
        old(local).sender() is Some,
        returned is Pending,
    ensures
        final(local).sender() is Some,
        final(local).sender() == old(local).sender(),
        exists|f: &mut Fut, y: &mut Context<'_>|
            {
                &&& #[trigger] call_ensures(poll_future, (f, y), Poll::Pending)
                &&& *f == old(local).inner() && *final(f) == final(local).inner()
                &&& *y == *old(cx) && *final(y) == *final(cx)
            },
{
}

/// A section whose sender is used up is done: its future was polled, for the task `cx`,
/// and gave an output, and that output was given to `send` on the sender.
pub proof fn law_done_section_sends_its_output<Fut: Future, P>(
    local: &mut Local<Fut>,
    cx: &mut Context<'_>,
    poll_future: P,
    returned: Poll<()>,
) where
    P: FnOnce(&mut Fut, &mut Context<'_>) -> Poll<Fut::Output>,

    requires
        call_ensures(Local::<Fut>::poll::<P>, (local, cx, poll_future), returned),
        old(local).sender() is Some,
        final(local).sender() is None,
    ensures
        returned is Ready,
        exists|
            f: &mut Fut,
            y: &mut Context<'_>,
            output: Fut::Output,
            result: Result<(), Fut::Output>,
        |
            {
                &&& #[trigger] call_ensures(poll_future, (f, y), Poll::Ready(output))
                &&& *f == old(local).inner() && *final(f) == final(local).inner()
                &&& *y == *old(cx) && *final(y) == *final(cx)
                &&& #[trigger] call_ensures(
                    oneshot::Sender::<Fut::Output>::send,
                    (old(local).sender()->0, output),
                    result,
                )
            },
{
}

/// A section that is done and has its sender was hung up on: neither it nor the task
/// is changed.
pub proof fn law_done_section_is_sent_or_hung_up<Fut: Future, P>(
    local: &mut Local<Fut>,
    cx: &mut Context<'_>,
    poll_future: P,
    returned: Poll<()>,
) where
    P: FnOnce(&mut Fut, &mut Context<'_>) -> Poll<Fut::Output>,

    requires
        call_ensures(Local::<Fut>::poll::<P>, (local, cx, poll_future), returned),
        old(local).sender() is Some,
        returned is Ready,
        final(local).sender() is Some,
    ensures
        *final(local) == *old(local),
        *final(cx) == *old(cx),
        exists|s: &mut oneshot::Sender<Fut::Output>, x: &mut Context<'_>, answer: Poll<()>|
            {
                &&& #[trigger] call_ensures(
                    oneshot::Sender::<Fut::Output>::poll_canceled,
                    (s, x),
                    answer,
                )
                &&& answer is Ready
                &&& *s == old(local).sender()->0 && *x == *old(cx)
            },
{
}

/// What is known of the handle decides: a section whose handle is gone is done and
/// stays as it is; one whose handle is there is not left as it was unless it is
/// pending.
pub proof fn law_hangup_decides<Fut: Future, P>(
    local: &mut Local<Fut>,
    canceled: Poll<()>,
    cx: &mut Context<'_>,
    poll_future: P,
    returned: Poll<()>,
) where
    P: FnOnce(&mut Fut, &mut Context<'_>) -> Poll<Fut::Output>,

    requires
        call_ensures(
            Local::<Fut>::poll_unless::<P>,
            (local, canceled, cx, poll_future),
            returned,
        ),
        old(local).sender() is Some,
    ensures
        canceled is Ready ==> returned is Ready && *final(local) == *old(local) && *final(cx)
            == *old(cx),
        canceled is Pending && returned is Ready ==> final(local).sender() is None,
{
}

/// A section that is found pending keeps its sender, and can be polled again: its
/// handle was there, and its future was polled, for the task `cx`, and was pending.
pub proof fn law_pending_turn_keeps_the_sender<Fut: Future, P>(
    local: &mut Local<Fut>,
    canceled: Poll<()>,
    cx: &mut Context<'_>,
    poll_future: P,
    returned: Poll<()>,
) where
    P: FnOnce(&mut Fut, &mut Context<'_>) -> Poll<Fut::Output>,

    requires
        call_ensures(
            Local::<Fut>::poll_unless::<P>,
            (local, canceled, cx, poll_future),
            returned,
        ),
        old(local).sender() is Some,
        returned is Pending,
    ensures
        canceled is Pending,
        final(local).sender() is Some,
        final(local).sender() == old(local).sender(),
        exists|f: &mut Fut, y: &mut Context<'_>|
            {
                &&& #[trigger] call_ensures(poll_future, (f, y), Poll::Pending)
                &&& *f == old(local).inner() && *final(f) == final(local).inner()
                &&& *y == *old(cx) && *final(y) == *final(cx)
            },
{
}

/// A section whose sender is used up had its handle, was polled, for the task `cx`, gave
/// an output, and gave that output to `send` on the sender.
pub proof fn law_done_turn_sends_the_output<Fut: Future, P>(
    local: &mut Local<Fut>,
    canceled: Poll<()>,
    cx: &mut Context<'_>,
    poll_future: P,
    returned: Poll<()>,
) where
    P: FnOnce(&mut Fut, &mut Context<'_>) -> Poll<Fut::Output>,

    requires
        call_ensures(
            Local::<Fut>::poll_unless::<P>,
            (local, canceled, cx, poll_future),
            returned,
        ),
        old(local).sender() is Some,
        final(local).sender() is None,
    ensures
        canceled is Pending,
        returned is Ready,
        exists|
            f: &mut Fut,
            y: &mut Context<'_>,
            output: Fut::Output,
            result: Result<(), Fut::Output>,
        |
            {
                &&& #[trigger] call_ensures(poll_future, (f, y), Poll::Ready(output))
                &&& *f == old(local).inner() && *final(f) == final(local).inner()
                &&& *y == *old(cx) && *final(y) == *final(cx)
                &&& #[trigger] call_ensures(
                    oneshot::Sender::<Fut::Output>::send,
                    (old(local).sender()->0, output),
                    result,
                )
            },
{
}

/// A handle is pending only if the channel is: its receiver was polled for this
/// task, and was itself pending, and the handle is what it was.
pub proof fn law_handle_is_pending_only_with_its_channel<T>(
    handle: &mut LocalHandle<T>,
    cx: &mut Context<'_>,
    outcome: Poll<Result<T, Abandoned>>,
)
    requires
        call_ensures(LocalHandle::<T>::poll, (handle, cx), outcome),
        outcome is Pending,
    ensures
        old(handle).receiver() matches Some(rx) && transfer::received(
            rx,
            *old(cx),
            Polled::Pending(rx),
        ),
        *final(handle) == *old(handle),
        *final(cx) == *old(cx),
{
}

/// A handle yields what came through its channel: its receiver was polled for this
/// task and gave this output, which was given to `send` on the sender that was
/// made with the receiver. The handle does not have the receiver any more.
pub proof fn law_handle_yields_what_was_sent<T>(
    tx: oneshot::Sender<T>,
    handle: &mut LocalHandle<T>,
    cx: &mut Context<'_>,
    output: T,
)
    requires
        call_ensures(LocalHandle::<T>::poll, (handle, cx), Poll::Ready(Ok(output))),
        old(handle).receiver() matches Some(rx) ==> call_ensures(
            oneshot::channel::<T>,
            (),
            (tx, rx),
        ),
    ensures
        old(handle).receiver() matches Some(rx) && transfer::received(
            rx,
            *old(cx),
            Polled::Ready(Ok(output)),
        ),
        exists|result: Result<(), T>|
            call_ensures(oneshot::Sender::<T>::send, (tx, output), result),
        final(handle).receiver() is None,
        *final(cx) == *old(cx),
{
    transfer::law_received_is_sent(tx, old(handle).receiver()->0, *old(cx), output);
}

/// A handle reports that its local future is gone only if it is: its receiver was
/// polled for the task `cx` and found the channel ended, with nothing given to `send`
/// on the sender that was made with it. Otherwise the handle was ready before.
pub proof fn law_handle_is_abandoned_only_unsent<T>(
    tx: oneshot::Sender<T>,
    value: T,
    result: Result<(), T>,
    handle: &mut LocalHandle<T>,
    cx: &mut Context<'_>,
)
    requires
        call_ensures(LocalHandle::<T>::poll, (handle, cx), Poll::Ready(Err(Abandoned))),
        old(handle).receiver() is Some,
        call_ensures(oneshot::channel::<T>, (), (tx, old(handle).receiver()->0)),
    ensures
        !call_ensures(oneshot::Sender::<T>::send, (tx, value), result),
        exists|error: oneshot::Canceled| #[trigger]
            transfer::received(
                old(handle).receiver()->0,
                *old(cx),
                Polled::Ready(Err(error)),
            ),
        final(handle).receiver() is None,
        *final(cx) == *old(cx),
{
    let rx = old(handle).receiver()->0;
    let error = choose|error: oneshot::Canceled| #[trigger]
        transfer::received(rx, *old(cx), Polled::Ready(Err(error)));
    if call_ensures(oneshot::Sender::<T>::send, (tx, value), result) {
        assert(transfer::connected(tx, rx) && transfer::sent(tx, value));
        transfer::law_sent_is_not_lost(tx, rx, *old(cx), Polled::Ready(Err(error)), value);
    }
}

/// A handle that is polled again after it was ready yields [`Abandoned`], and
/// stays as it is.
pub proof fn law_ready_handle_is_used_up<T>(
    first: &mut LocalHandle<T>,
    cx: &mut Context<'_>,
    outcome: Poll<Result<T, Abandoned>>,
    again: &mut LocalHandle<T>,
    cx_again: &mut Context<'_>,
    outcome_again: Poll<Result<T, Abandoned>>,
)
    requires
        call_ensures(LocalHandle::<T>::poll, (first, cx), outcome),
        outcome is Ready,
        *old(again) == *final(first),
        call_ensures(LocalHandle::<T>::poll, (again, cx_again), outcome_again),
    ensures
        outcome_again == Poll::Ready(Err::<T, Abandoned>(Abandoned)),
        *final(again) == *old(again),
{
}

/// A handle that is known to be filled yields at once what was given to `send` on
/// the sender that was made with its receiver.
pub proof fn law_sent_output_is_yielded_at_once<T>(
    handle: &mut LocalHandle<T>,
    cx: &mut Context<'_>,
    outcome: Poll<Result<T, Abandoned>>,
    tx: oneshot::Sender<T>,
    output: T,
    result: Result<(), T>,
)
    requires
        call_ensures(LocalHandle::<T>::poll_sent, (handle, cx), outcome),
        old(handle).receiver() is Some,
        call_ensures(oneshot::channel::<T>, (), (tx, old(handle).receiver()->0)),
        call_ensures(oneshot::Sender::<T>::send, (tx, output), result),
    ensures
        outcome == Poll::Ready(Ok::<T, Abandoned>(output)),
        transfer::received(
            old(handle).receiver()->0,
            *old(cx),
            Polled::Ready(Ok(output)),
        ),
        final(handle).receiver() is None,
        *final(cx) == *old(cx),
{
    let rx = old(handle).receiver()->0;
    assert(transfer::connected(tx, rx) && transfer::sent(tx, output));
    match outcome {
        Poll::Ready(Ok(value)) => {
            transfer::law_received_is_sent(tx, rx, *old(cx), value);
        },
        _ => {},
    }
}

/// The handle of a local future whose output is still to come is pending because
/// the channel is, and nothing is changed.
pub proof fn law_unsent_handle_is_pending<Fut: Future>(
    local: Local<Fut>,
    handle: &mut LocalHandle<Fut::Output>,
    cx: &mut Context<'_>,
    outcome: Poll<Result<Fut::Output, Abandoned>>,
)
    requires
        call_ensures(Local::<Fut>::poll_handle, (&local, handle, cx), outcome),
        paired(local, *old(handle)),
    ensures
        outcome is Pending,
        transfer::received(
            old(handle).receiver()->0,
            *old(cx),
            Polled::Pending(old(handle).receiver()->0),
        ),
        *final(handle) == *old(handle),
        *final(cx) == *old(cx),
{
}

/// A handle makes of its receiver's answer nothing else than it is: an output
/// stays that output, the end of the channel is [`Abandoned`], and what is
/// pending stays so.
pub proof fn law_answer_is_kept<T>(
    answer: Poll<Result<T, oneshot::Canceled>>,
    outcome: Poll<Result<T, Abandoned>>,
)
    requires
        call_ensures(LocalHandle::<T>::resolve, (answer,), outcome),
    ensures
        answer is Pending <==> outcome is Pending,
        answer matches Poll::Ready(Ok(output)) ==> outcome == Poll::Ready(Ok::<T, Abandoned>(output)),
        answer matches Poll::Ready(Err(_)) ==> outcome == Poll::Ready(Err::<T, Abandoned>(Abandoned)),
{
}

/// The two parts of a future are connected: the future is the one that was given,
/// and one call of `oneshot::channel` made the sender of the one part and the
/// receiver of the other.
pub proof fn law_halves_are_of_one_future<Fut: Future>(
    future: Fut,
    halves: (Local<Fut>, LocalHandle<Fut::Output>),
)
    requires
        call_ensures(local_handle::<Fut>, (future,), halves),
    ensures
        halves.0.inner() == future,
        halves.0.sender() is Some,
        halves.1.receiver() is Some,
        call_ensures(
            oneshot::channel::<Fut::Output>,
            (),
            (halves.0.sender()->0, halves.1.receiver()->0),
        ),
        paired(halves.0, halves.1),
{
}

/// Two halves are paired exactly if both are there and one call of
/// `oneshot::channel` made them.
pub proof fn law_paired_is_one_channel<Fut: Future>(
    local: Local<Fut>,
    handle: LocalHandle<Fut::Output>,
)
    ensures
        paired(local, handle) <==> {
            &&& local.sender() is Some
            &&& handle.receiver() is Some
            &&& call_ensures(
                oneshot::channel::<Fut::Output>,
                (),
                (local.sender()->0, handle.receiver()->0),
            )
        },
{
}

/// A local future is open exactly if it has its sender.
pub proof fn law_open_with_its_sender<Fut: Future>(local: Local<Fut>, open: bool)
    requires
        call_ensures(Local::<Fut>::is_open, (&local,), open),
    ensures
        open <==> local.sender() is Some,
{
}

/// The future that a local future shows is the one that runs.
pub proof fn law_local_shows_its_future<Fut: Future>(local: Local<Fut>, future: &Fut)
    requires
        call_ensures(Local::<Fut>::future, (&local,), future),
    ensures
        *future == local.inner(),
{
}

/// The output of a section reaches whoever awaits it. Once a poll of the local half
/// of `future` used up the sender, `future` was polled and gave an output; and the
/// next poll of the handle yields that output, unless the channel itself is
/// pending.
pub proof fn law_output_reaches_the_handle<Fut: Future, P>(
    future: Fut,
    halves: (Local<Fut>, LocalHandle<Fut::Output>),
    local: &mut Local<Fut>,
    cx: &mut Context<'_>,
    poll_future: P,
    returned: Poll<()>,
    handle: &mut LocalHandle<Fut::Output>,
    task: &mut Context<'_>,
    outcome: Poll<Result<Fut::Output, Abandoned>>,
) where P: FnOnce(&mut Fut, &mut Context<'_>) -> Poll<Fut::Output>
    requires
        call_ensures(local_handle::<Fut>, (future,), halves),
        call_ensures(Local::<Fut>::poll::<P>, (local, cx, poll_future), returned),
        *old(local) == halves.0,
        final(local).sender() is None,
        call_ensures(LocalHandle::<Fut::Output>::poll, (handle, task), outcome),
        *old(handle) == halves.1,
    ensures
        returned is Ready,
        exists|f: &mut Fut, y: &mut Context<'_>, output: Fut::Output|
            {
                &&& #[trigger] call_ensures(poll_future, (f, y), Poll::Ready(output))
                &&& *f == future && *y == *old(cx)
                &&& outcome != Poll::Ready(Ok::<Fut::Output, Abandoned>(output)) ==> {
                    &&& outcome is Pending
                    &&& transfer::received(
                        halves.1.receiver()->0,
                        *old(task),
                        Polled::Pending(halves.1.receiver()->0),
                    )
                    &&& *final(handle) == halves.1
                }
            },
{
    let tx = halves.0.sender()->0;
    let rx = halves.1.receiver()->0;
    let (f, y, output, result) = choose|
        f: &mut Fut,
        y: &mut Context<'_>,
        output: Fut::Output,
        result: Result<(), Fut::Output>,
    |
        {
            &&& #[trigger] call_ensures(poll_future, (f, y), Poll::Ready(output))
            &&& *f == future && *y == *old(cx)
            &&& #[trigger] call_ensures(
                oneshot::Sender::<Fut::Output>::send,
                (tx, output),
                result,
            )
        };
    assert(transfer::connected(tx, rx) && transfer::sent(tx, output));
    match outcome {
        Poll::Pending => {},
        Poll::Ready(Ok(value)) => {
            transfer::law_received_is_sent(tx, rx, *old(task), value);
        },
        Poll::Ready(Err(_)) => {
            let error = choose|error: oneshot::Canceled| #[trigger]
                transfer::received(rx, *old(task), Polled::Ready(Err(error)));
            transfer::law_sent_is_not_lost(tx, rx, *old(task), Polled::Ready(Err(error)), output);
        },
    }
}

/// A turn that was taken is pending exactly if the handle was there and the future
/// pending, and then the sender is kept. It uses the sender up exactly if the
/// handle was there and the future gave an output, which then was given to
/// `send`. It changes nothing if the handle was gone.
pub proof fn law_turn_keeps_or_sends<Fut: Future>(turn: Turn<Fut>)
    requires
        turn.taken(),
    ensures
        turn.before.sender() is Some,
        turn.returned is Pending <==> turn.canceled is Pending && turn.outcome is Pending,
        turn.returned is Pending ==> turn.after.sender() == turn.before.sender(),
        turn.canceled is Ready ==> turn.after == turn.before,
        turn.after.sender() is None <==> turn.canceled is Pending && turn.outcome is Ready,
        turn.canceled is Pending ==> (turn.outcome matches Poll::Ready(output) ==> exists|
            result: Result<(), Fut::Output>,
        |
            call_ensures(
                oneshot::Sender::<Fut::Output>::send,
                (turn.before.sender()->0, output),
                result,
            )),
        turn.body_pending() <==> turn.canceled is Pending && turn.outcome is Pending,
        forall|output: Fut::Output| #[trigger]
            turn.gave(output) <==> turn.canceled is Pending && turn.outcome == Poll::Ready(output),
{
}

} // verus!
