//! The one-shot channel of `futures`, as far as its two halves are used here.
//!
//! Both halves share state, and what one half sees depends on what the holder of
//! the other half did. The contracts therefore speak of calls: `call_ensures`
//! relates the arguments of a call to its result, and for a function of another
//! crate that relation is known only of calls that were made. [`connected`],
//! [`sent`], [`hangup_answer`] and [`received`] name those calls.
use futures::channel::oneshot;
use futures::future::FutureExt;
use std::task::{Context, Poll};
use vstd::prelude::*;

verus! {

/// `std::task::Context`: carried from an executor to the futures it polls.
#[verifier::external_type_specification]
#[verifier::external_body]
pub struct ExContext<'a>(Context<'a>);

/// `std::task::Poll`, with both of its variants.
#[verifier::external_type_specification]
#[verifier::reject_recursive_types(T)]
pub struct ExPoll<T>(Poll<T>);

/// `futures::channel::oneshot::Sender`: the half that gives the value.
#[verifier::external_type_specification]
#[verifier::external_body]
#[verifier::reject_recursive_types(T)]
pub struct ExSender<T>(oneshot::Sender<T>);

/// `futures::channel::oneshot::Receiver`: the half that takes the value.
#[verifier::external_type_specification]
#[verifier::external_body]
#[verifier::reject_recursive_types(T)]
pub struct ExReceiver<T>(oneshot::Receiver<T>);

/// `futures::channel::oneshot::Canceled`: the receiver's error.
#[verifier::external_type_specification]
#[verifier::external_body]
pub struct ExCanceled(oneshot::Canceled);

/// `oneshot::channel` makes the two halves of a new channel. Nothing is claimed
/// of either half by itself; [`connected`] says of two halves that they come
/// from one such call.
pub assume_specification<T>[ oneshot::channel::<T> ]() -> (halves: (
    oneshot::Sender<T>,
    oneshot::Receiver<T>,
));

/// `Sender::poll_canceled` asks whether the receiver is gone. It leaves the
/// sender a half of the same channel, and the context as it is, from which it
/// takes the waker. The answer is left open: it is `Ready` when the receiver's
/// holder has dropped or closed it, which no call in this library does.
pub assume_specification<T>[ oneshot::Sender::<T>::poll_canceled ](
    tx: &mut oneshot::Sender<T>,
    cx: &mut Context<'_>,
) -> (answer: Poll<()>)
    ensures
        *final(tx) == *old(tx),
        *final(cx) == *old(cx),
;

/// `Sender::send` gives `t` to the channel and uses the sender up. If the
/// receiver is gone the value comes back. Whether it is gone is left open, for
/// the reason given at `poll_canceled`.
pub assume_specification<T>[ oneshot::Sender::<T>::send ](tx: oneshot::Sender<T>, t: T) -> (result:
    Result<(), T>)
    ensures
        result matches Err(back) ==> back == t,
;

/// The two halves were made by one call of `oneshot::channel`.
pub open spec fn connected<T>(tx: oneshot::Sender<T>, rx: oneshot::Receiver<T>) -> bool {
    call_ensures(oneshot::channel::<T>, (), (tx, rx))
}

/// The value was given to `send` on this sender.
pub open spec fn sent<T>(tx: oneshot::Sender<T>, value: T) -> bool {
    exists|result: Result<(), T>| call_ensures(oneshot::Sender::<T>::send, (tx, value), result)
}

/// The sender was asked for the task `cx` whether its receiver is gone, and this
/// was the answer: `Ready` if it is gone, `Pending` if it may still take a value.
pub open spec fn hangup_answer<T>(
    tx: oneshot::Sender<T>,
    cx: Context<'_>,
    answer: Poll<()>,
) -> bool {
    exists|s: &mut oneshot::Sender<T>, c: &mut Context<'_>|
        *s == tx && *c == cx && #[trigger] call_ensures(
            oneshot::Sender::<T>::poll_canceled,
            (s, c),
            answer,
        )
}

/// What a poll makes of a receiver. While the channel may still give a value, the
/// receiver comes back; with the value, or with the end of the channel, it is
/// used up. A receiver that can be polled has therefore never been ready before.
#[verifier::reject_recursive_types(T)]
pub enum Polled<T> {
    Pending(oneshot::Receiver<T>),
    Ready(Result<T, oneshot::Canceled>),
}

impl<T> Polled<T> {
    /// The receiver that is left.
    pub open spec fn left(self) -> Option<oneshot::Receiver<T>> {
        match self {
            Polled::Pending(rx) => Some(rx),
            Polled::Ready(_) => None,
        }
    }

    /// What the poll returned.
    pub open spec fn answer(self) -> Poll<Result<T, oneshot::Canceled>> {
        match self {
            Polled::Pending(_) => Poll::Pending,
            Polled::Ready(result) => Poll::Ready(result),
        }
    }
}

/// What the caller of a poll knows of the other half of the channel.
#[verifier::reject_recursive_types(T)]
pub enum Peer<'a, T> {
    /// Nothing.
    Unknown,
    /// The sender is there, with nothing sent yet.
    Waiting(&'a oneshot::Sender<T>),
    /// A value was sent.
    Sent,
}

/// The receiver's sender has sent a value.
pub open spec fn filled<T>(rx: oneshot::Receiver<T>) -> bool {
    exists|tx: oneshot::Sender<T>, value: T| #[trigger]
        connected(tx, rx) && #[trigger] sent(tx, value)
}

impl<'a, T> Peer<'a, T> {
    /// What is known is true of the receiver's sender.
    pub open spec fn holds(self, rx: oneshot::Receiver<T>) -> bool {
        match self {
            Peer::Unknown => true,
            Peer::Waiting(tx) => connected(*tx, rx),
            Peer::Sent => filled(rx),
        }
    }
}

/// What the result of a poll tells of the receiver's channel. A pending receiver
/// stays a half of it. A value that came out was sent by the sender, and nothing
/// else was. If the channel ended, nothing was sent.
pub open spec fn told<T>(rx: oneshot::Receiver<T>, polled: Polled<T>) -> bool {
    match polled {
        Polled::Pending(left) => left == rx,
        Polled::Ready(Ok(value)) => forall|tx: oneshot::Sender<T>| #[trigger]
            connected(tx, rx) ==> {
                &&& sent(tx, value)
                &&& forall|other: T| #[trigger] sent(tx, other) ==> other == value
            },
        Polled::Ready(Err(_)) => forall|tx: oneshot::Sender<T>, value: T| #[trigger]
            connected(tx, rx) ==> !#[trigger] sent(tx, value),
    }
}

/// `Receiver::poll`, through `FutureExt::poll_unpin`, on a receiver that was never
/// ready before and that is not closed: a receiver that is ready does not come
/// back, and no call in this library closes one. The context, from which the
/// waker is taken, stays as it is, and a pending receiver stays a half of the
/// same channel.
/// - A value that comes out was given to `send` on the sender made with this
///   receiver, and nothing else was: `send` uses the sender up, so that it is
///   called at most once.
/// - If the channel ended, the sender was dropped unused, so that nothing was
///   given to `send` on it, nor ever will be.
/// - If the caller shows the sender, which then is neither used nor dropped, the
///   receiver is pending.
/// - If the caller knows that a value was sent, the receiver is ready with it:
///   `send` stores the value and drops the sender before it returns.
///
/// `peer` is not looked at. It says which of the last two is claimed. Where the
/// caller knows nothing, it is left open whether the receiver is ready: that
/// depends on whether the sender was used or dropped by the time of the call.
#[verifier::external_body]
pub(crate) fn poll_receiver<T>(
    rx: oneshot::Receiver<T>,
    cx: &mut Context<'_>,
    peer: Peer<'_, T>,
) -> (polled: Polled<T>)
    requires
        peer.holds(rx),
    ensures
        *final(cx) == *old(cx),
        told(rx, polled),
        peer is Waiting ==> polled is Pending,
        peer is Sent ==> polled is Ready,
{
    let _ = peer;
    let mut rx = rx;
    match rx.poll_unpin(cx) {
        Poll::Pending => Polled::Pending(rx),
        Poll::Ready(result) => Polled::Ready(result),
    }
}

/// The receiver was polled for the task `cx`, with this result.
pub closed spec fn received<T>(
    rx: oneshot::Receiver<T>,
    cx: Context<'_>,
    polled: Polled<T>,
) -> bool {
    exists|c: &mut Context<'_>, peer: Peer<'_, T>|
        *c == cx && #[trigger] call_ensures(poll_receiver::<T>, (rx, c, peer), polled)
}

/// Polls the receiver once.
pub(crate) fn receive<T>(rx: oneshot::Receiver<T>, cx: &mut Context<'_>, peer: Peer<'_, T>) -> (
polled: Polled<T>)
    requires
        peer.holds(rx),
    ensures
        *final(cx) == *old(cx),
        received(rx, *old(cx), polled),
        peer is Waiting ==> polled is Pending,
        peer is Sent ==> polled is Ready,
{
    poll_receiver(rx, cx, peer)
}

/// A receiver that is still pending is the one that was polled.
pub proof fn law_pending_is_unchanged<T>(
    rx: oneshot::Receiver<T>,
    cx: Context<'_>,
    polled: Polled<T>,
)
    requires
        received(rx, cx, polled),
        polled is Pending,
    ensures
        polled == Polled::Pending(rx),
{
}

/// What is read back is what was written: a receiver that resolves with `value`
/// does so because `value`, and nothing else, was sent by its sender.
pub proof fn law_received_is_sent<T>(
    tx: oneshot::Sender<T>,
    rx: oneshot::Receiver<T>,
    cx: Context<'_>,
    value: T,
)
    requires
        connected(tx, rx),
        received(rx, cx, Polled::Ready(Ok(value))),
    ensures
        sent(tx, value),
        forall|other: T| #[trigger] sent(tx, other) ==> other == value,
{
}

/// What was written is not lost: a receiver whose sender has sent a value does
/// not find the channel ended, nor another value.
pub proof fn law_sent_is_not_lost<T>(
    tx: oneshot::Sender<T>,
    rx: oneshot::Receiver<T>,
    cx: Context<'_>,
    polled: Polled<T>,
    value: T,
)
    requires
        connected(tx, rx),
        received(rx, cx, polled),
        sent(tx, value),
    ensures
        polled is Pending || polled == Polled::Ready(Ok::<T, oneshot::Canceled>(value)),
{
}

/// Two halves are connected exactly if one call of `oneshot::channel` made both.
pub proof fn law_connected_is_one_channel<T>(tx: oneshot::Sender<T>, rx: oneshot::Receiver<T>)
    ensures
        connected(tx, rx) <==> call_ensures(oneshot::channel::<T>, (), (tx, rx)),
{
}

/// A value counts as sent exactly if `Sender::send` was called with it.
pub proof fn law_sent_was_given_to_send<T>(tx: oneshot::Sender<T>, value: T)
    ensures
        sent(tx, value) <==> exists|result: Result<(), T>|
            call_ensures(oneshot::Sender::<T>::send, (tx, value), result),
{
}

/// A hangup is what the channel itself reported: there is an answer exactly if
/// `Sender::poll_canceled` was called on this sender for the task `cx`, and gave it.
pub proof fn law_hangup_answer_is_the_channels<T>(
    tx: oneshot::Sender<T>,
    cx: Context<'_>,
    answer: Poll<()>,
)
    ensures
        hangup_answer(tx, cx, answer) <==> exists|
            s: &mut oneshot::Sender<T>,
            c: &mut Context<'_>,
        |
            *s == tx && *c == cx && #[trigger] call_ensures(
                oneshot::Sender::<T>::poll_canceled,
                (s, c),
                answer,
            ),
{
}

/// What was received is what the channel itself answered: there is a result
/// exactly if the receiver was polled for the task `cx`, and the poll gave it.
pub(crate) proof fn law_received_is_the_channels<T>(
    rx: oneshot::Receiver<T>,
    cx: Context<'_>,
    polled: Polled<T>,
)
    ensures
        received(rx, cx, polled) <==> exists|c: &mut Context<'_>, peer: Peer<'_, T>|
            *c == cx && #[trigger] call_ensures(poll_receiver::<T>, (rx, c, peer), polled),
{
}

/// A receiver is filled exactly if `Sender::send` was called on the sender that
/// was made with it.
pub proof fn law_filled_by_its_sender<T>(rx: oneshot::Receiver<T>)
    ensures
        filled(rx) <==> exists|tx: oneshot::Sender<T>, value: T, result: Result<(), T>|
            #[trigger] call_ensures(oneshot::channel::<T>, (), (tx, rx)) && #[trigger] call_ensures(
                oneshot::Sender::<T>::send,
                (tx, value),
                result,
            ),
{
    if filled(rx) {
        let (tx, value) = choose|tx: oneshot::Sender<T>, value: T| #[trigger]
            connected(tx, rx) && #[trigger] sent(tx, value);
        assert(call_ensures(oneshot::channel::<T>, (), (tx, rx)));
        let result = choose|result: Result<(), T>|
            call_ensures(oneshot::Sender::<T>::send, (tx, value), result);
        assert(call_ensures(oneshot::Sender::<T>::send, (tx, value), result));
    }
    if exists|tx: oneshot::Sender<T>, value: T, result: Result<(), T>|
        #[trigger] call_ensures(oneshot::channel::<T>, (), (tx, rx)) && #[trigger] call_ensures(
            oneshot::Sender::<T>::send,
            (tx, value),
            result,
        ) {
        let (tx, value, result) = choose|tx: oneshot::Sender<T>, value: T, result: Result<(), T>|
            #[trigger] call_ensures(oneshot::channel::<T>, (), (tx, rx)) && #[trigger] call_ensures(
                oneshot::Sender::<T>::send,
                (tx, value),
                result,
            );
        assert(connected(tx, rx) && sent(tx, value));
    }
}

/// What a caller may claim to know of a receiver's sender is so: a sender that it
/// shows was made with the receiver, and a value that it knows of was sent on the
/// sender made with the receiver.
pub proof fn law_peer_is_the_receivers<T>(peer: Peer<'_, T>, rx: oneshot::Receiver<T>)
    ensures
        peer matches Peer::Waiting(tx) ==> (peer.holds(rx) <==> call_ensures(
            oneshot::channel::<T>,
            (),
            (*tx, rx),
        )),
        peer is Sent ==> (peer.holds(rx) <==> filled(rx)),
        peer is Unknown ==> peer.holds(rx),
{
}

/// What a poll tells, and no more: a pending receiver comes back as it was; a
/// value is the one that was given to `send` on the sender made with the
/// receiver, and the only one; and the end means that none was.
pub proof fn law_poll_tells_no_more<T>(rx: oneshot::Receiver<T>, polled: Polled<T>)
    ensures
        polled matches Polled::Pending(left) ==> (told(rx, polled) <==> left == rx),
        polled matches Polled::Ready(Ok(value)) ==> (told(rx, polled) <==> forall|
            tx: oneshot::Sender<T>,
        | #[trigger]
            connected(tx, rx) ==> {
                &&& sent(tx, value)
                &&& forall|other: T| #[trigger] sent(tx, other) ==> other == value
            }),
        polled matches Polled::Ready(Err(_)) ==> (told(rx, polled) <==> forall|
            tx: oneshot::Sender<T>,
            value: T,
        | #[trigger]
            connected(tx, rx) ==> !#[trigger] sent(tx, value)),
{
}

/// A receiver is left exactly if the poll was pending, and then it is the one
/// that came back; the answer is `Pending` then, and the result otherwise.
pub proof fn law_polled_is_receiver_or_result<T>(polled: Polled<T>)
    ensures
        polled matches Polled::Pending(rx) ==> polled.left() == Some(rx)
            && polled.answer() is Pending,
        polled matches Polled::Ready(result) ==> polled.left() is None && polled.answer()
            == Poll::Ready(result),
{
}

} // verus!
