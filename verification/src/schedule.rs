//! What exclusive access means for the order in which an actor's futures are
//! polled.
//!
//! An actor's context polls the futures spawned onto it one at a time. A future
//! that is being polled may tell the context to wait for a further one, as
//! `critical_section` does. How the context then goes on is not up to this
//! library: [`follows_waits`] says what is assumed of it, and the laws say what
//! critical sections get from such a context. A running actix context meets the
//! assumption for futures that were registered by a future being polled; one that
//! a message handler registered by itself may be taken up a poll too late.
use crate::local_handle;
use crate::local_handle::Turn;
use std::future::Future;
use std::task::Poll;
use vstd::prelude::*;

verus! {

/// A poll by an actor's context, which tells its futures apart by number.
pub struct Step {
    /// The future that is polled.
    pub task: nat,
    /// The futures that it tells the context to wait for meanwhile.
    pub registered: Set<nat>,
    /// What it returns.
    pub returned: Poll<()>,
}

/// The futures that the context waits for after the steps taken: those that were
/// registered and are not done.
pub open spec fn waiting(steps: Seq<Step>) -> Set<nat>
    decreases steps.len(),
{
    if steps.len() == 0 {
        Set::empty()
    } else {
        let step = steps.last();
        let told = waiting(steps.drop_last()).union(step.registered);
        if step.returned is Ready {
            told.remove(step.task)
        } else {
            told
        }
    }
}

/// What is assumed of a context. While it waits for futures, it polls one of
/// them; and one that it has polled it polls again until it is done, unless that
/// one registered others.
pub open spec fn follows_waits(steps: Seq<Step>) -> bool {
    &&& forall|i: int, t: nat|
        0 <= i < steps.len() && #[trigger] waiting(steps.take(i)).contains(t) ==> waiting(
            steps.take(i),
        ).contains((#[trigger] steps[i]).task)
    &&& forall|i: int, j: int|
        0 <= i && j == i + 1 && j < steps.len() && waiting(steps.take(i)).contains(
            (#[trigger] steps[i]).task,
        ) && steps[i].returned is Pending && steps[i].registered == Set::<nat>::empty()
            ==> (#[trigger] steps[j]).task == steps[i].task
}

/// Step `start` registers `section`, which is another future than the one polled.
pub open spec fn registers(steps: Seq<Step>, start: int, section: nat) -> bool {
    &&& 0 <= start < steps.len()
    &&& steps[start].registered.contains(section)
    &&& steps[start].task != section
}

/// From step `from` up to step `to`, each poll of `section` is one of the turns of
/// a local future.
pub open spec fn polls_are_turns<Fut: Future>(
    steps: Seq<Step>,
    section: nat,
    from: int,
    to: int,
    turns: Seq<Turn<Fut>>,
) -> bool {
    forall|k: int|
        from <= k < to && (#[trigger] steps[k]).task == section ==> exists|i: int|
            0 <= i < turns.len() && (#[trigger] turns[i]).returned == steps[k].returned
}

/// The turns were taken by one local future whose handle was there and whose body
/// was not done at any of them.
pub open spec fn body_is_pending<Fut: Future>(turns: Seq<Turn<Fut>>) -> bool {
    &&& local_handle::taken_in_order(turns)
    &&& forall|i: int| 0 <= i < turns.len() ==> (#[trigger] turns[i]).body_pending()
}

/// A critical section whose body is pending at each poll is not done.
proof fn lemma_pending_polls<Fut: Future>(
    steps: Seq<Step>,
    section: nat,
    from: int,
    to: int,
    turns: Seq<Turn<Fut>>,
    k: int,
)
    requires
        polls_are_turns(steps, section, from, to, turns),
        body_is_pending(turns),
        from <= k < to,
        steps[k].task == section,
    ensures
        steps[k].returned is Pending,
{
    let i = choose|i: int|
        0 <= i < turns.len() && (#[trigger] turns[i]).returned == steps[k].returned;
    local_handle::law_done_when_future_is(turns, i);
}

/// A critical section is waited for from the step that registers it for as long
/// as its body is pending.
proof fn lemma_section_waited_for<Fut: Future>(
    steps: Seq<Step>,
    section: nat,
    start: int,
    now: int,
    turns: Seq<Turn<Fut>>,
)
    requires
        registers(steps, start, section),
        start < now <= steps.len(),
        polls_are_turns(steps, section, start, now, turns),
        body_is_pending(turns),
    ensures
        waiting(steps.take(now)).contains(section),
    decreases now - start,
{
    assert(steps.take(now).drop_last() =~= steps.take(now - 1));
    assert(steps.take(now).last() == steps[now - 1]);
    if now - 1 > start {
        lemma_section_waited_for(steps, section, start, now - 1, turns);
        if steps[now - 1].task == section {
            lemma_pending_polls(steps, section, start, now, turns, now - 1);
        }
    }
}

/// Some step from `start` up to `now` registers the future.
pub open spec fn registered_since(steps: Seq<Step>, start: int, now: int, task: nat) -> bool {
    exists|k: int| start <= k < now && (#[trigger] steps[k]).registered.contains(task)
}

/// If the context waited for nothing before `start`, what it waits for was
/// registered since.
proof fn lemma_waiting_was_registered(steps: Seq<Step>, start: int, now: int, task: nat)
    requires
        0 <= start <= now <= steps.len(),
        waiting(steps.take(start)) =~= Set::<nat>::empty(),
        waiting(steps.take(now)).contains(task),
    ensures
        registered_since(steps, start, now, task),
    decreases now - start,
{
    if now > start {
        assert(steps.take(now).drop_last() =~= steps.take(now - 1));
        assert(steps.take(now).last() == steps[now - 1]);
        if !steps[now - 1].registered.contains(task) {
            lemma_waiting_was_registered(steps, start, now - 1, task);
            let k = choose|k: int|
                start <= k < now - 1 && (#[trigger] steps[k]).registered.contains(task);
            assert(steps[k].registered.contains(task));
        }
    }
}

/// Exclusive access. From the step that registers a critical section, and as long
/// as its body is pending and its handle is there, only futures that the context
/// waits for are polled: one that was merely spawned is not. If the context
/// waited for nothing when the section was registered, what is polled was
/// registered since; and if nothing else was, it is the critical section.
pub proof fn law_section_is_exclusive<Fut: Future>(
    steps: Seq<Step>,
    section: nat,
    start: int,
    now: int,
    turns: Seq<Turn<Fut>>,
)
    requires
        follows_waits(steps),
        registers(steps, start, section),
        start < now < steps.len(),
        polls_are_turns(steps, section, start, now, turns),
        body_is_pending(turns),
    ensures
        waiting(steps.take(now)).contains(steps[now].task),
        waiting(steps.take(start)) =~= Set::<nat>::empty() ==> registered_since(
            steps,
            start,
            now,
            steps[now].task,
        ),
        waiting(steps.take(start)) =~= Set::<nat>::empty() && (forall|t: nat| #[trigger]
            registered_since(steps, start, now, t) ==> t == section) ==> steps[now].task
            == section,
{
    lemma_section_waited_for(steps, section, start, now, turns);
    if waiting(steps.take(start)) =~= Set::<nat>::empty() {
        lemma_waiting_was_registered(steps, start, now, steps[now].task);
    }
}

/// Exclusive access holds for nested critical sections too. If the body of a
/// critical section enters another one, and these two are all that was
/// registered, then as long as the outer body is pending no future is polled but
/// the two sections.
pub proof fn law_nested_sections_are_exclusive<Fut: Future>(
    steps: Seq<Step>,
    outer: nat,
    inner: nat,
    start: int,
    now: int,
    turns: Seq<Turn<Fut>>,
)
    requires
        follows_waits(steps),
        registers(steps, start, outer),
        start < now < steps.len(),
        polls_are_turns(steps, outer, start, now, turns),
        body_is_pending(turns),
        waiting(steps.take(start)) =~= Set::<nat>::empty(),
        forall|t: nat| #[trigger]
            registered_since(steps, start, now, t) ==> t == outer || t == inner,
    ensures
        steps[now].task == outer || steps[now].task == inner,
{
    law_section_is_exclusive(steps, outer, start, now, turns);
}

/// Critical sections do not interleave. From the first poll of a critical section
/// that is waited for, and until its body is done or its handle is gone, no
/// future is polled but that section, whatever else is waited for, as long as its
/// body enters no other section.
pub proof fn law_sections_do_not_interleave<Fut: Future>(
    steps: Seq<Step>,
    section: nat,
    first: int,
    now: int,
    turns: Seq<Turn<Fut>>,
)
    requires
        follows_waits(steps),
        0 <= first <= now < steps.len(),
        steps[first].task == section,
        waiting(steps.take(first)).contains(section),
        polls_are_turns(steps, section, first, now, turns),
        body_is_pending(turns),
        forall|k: int|
            first <= k < now && (#[trigger] steps[k]).task == section ==> steps[k].registered
                == Set::<nat>::empty(),
    ensures
        steps[now].task == section,
        waiting(steps.take(now)).contains(section),
    decreases now - first,
{
    if now > first {
        law_sections_do_not_interleave(steps, section, first, now - 1, turns);
        lemma_pending_polls(steps, section, first, now, turns, now - 1);
        assert(steps.take(now).drop_last() =~= steps.take(now - 1));
        assert(steps.take(now).last() == steps[now - 1]);
        assert(steps[now].task == steps[now - 1].task);
    }
}

/// What is in the actor's log, if `written[k]` is what step `k` adds to it, of the
/// steps from `from` up to `to`.
pub open spec fn entries<E>(written: Seq<Seq<E>>, from: int, to: int) -> Seq<E>
    decreases to - from,
{
    if from >= to {
        Seq::empty()
    } else {
        entries(written, from, to - 1) + written[to - 1]
    }
}

/// What polls of `section` add to the log from step `from` up to step `to`.
pub open spec fn own_entries<E>(
    steps: Seq<Step>,
    section: nat,
    written: Seq<Seq<E>>,
    from: int,
    to: int,
) -> Seq<E>
    decreases to - from,
{
    if from >= to {
        Seq::empty()
    } else if steps[to - 1].task == section {
        own_entries(steps, section, written, from, to - 1) + written[to - 1]
    } else {
        own_entries(steps, section, written, from, to - 1)
    }
}

/// The log of a span of steps is made up of the logs of its parts.
proof fn lemma_entries_split<E>(written: Seq<Seq<E>>, from: int, mid: int, to: int)
    requires
        from <= mid <= to,
    ensures
        entries(written, from, to) == entries(written, from, mid) + entries(written, mid, to),
    decreases to - mid,
{
    if mid < to {
        lemma_entries_split(written, from, mid, to - 1);
    }
    assert(entries(written, from, to) =~= entries(written, from, mid) + entries(
        written,
        mid,
        to,
    ));
}

/// Between two polls of a critical section nothing else is written.
proof fn lemma_own_entries<Fut: Future, E>(
    steps: Seq<Step>,
    section: nat,
    first: int,
    last: int,
    turns: Seq<Turn<Fut>>,
    written: Seq<Seq<E>>,
)
    requires
        follows_waits(steps),
        0 <= first <= last < steps.len(),
        steps[first].task == section,
        waiting(steps.take(first)).contains(section),
        polls_are_turns(steps, section, first, last, turns),
        body_is_pending(turns),
        forall|k: int|
            first <= k < last && (#[trigger] steps[k]).task == section ==> steps[k].registered
                == Set::<nat>::empty(),
    ensures
        entries(written, first, last + 1) == own_entries(steps, section, written, first, last + 1),
    decreases last - first,
{
    law_sections_do_not_interleave(steps, section, first, last, turns);
    if first < last {
        lemma_own_entries(steps, section, first, last - 1, turns, written);
    } else {
        assert(entries(written, first, first) =~= own_entries(
            steps,
            section,
            written,
            first,
            first,
        ));
    }
}

/// What critical sections write is strictly ordered. From the first poll of a
/// critical section that is waited for to the one at which its body is done, at
/// step `last`, all that is added to the actor's log is what the section adds: it
/// stands in the log in one piece, as long as the body enters no other section
/// and its handle is there.
pub proof fn law_section_entries_stay_together<Fut: Future, E>(
    steps: Seq<Step>,
    section: nat,
    first: int,
    last: int,
    turns: Seq<Turn<Fut>>,
    written: Seq<Seq<E>>,
)
    requires
        follows_waits(steps),
        0 <= first <= last < steps.len(),
        steps[first].task == section,
        waiting(steps.take(first)).contains(section),
        polls_are_turns(steps, section, first, last, turns),
        body_is_pending(turns),
        forall|k: int|
            first <= k < last && (#[trigger] steps[k]).task == section ==> steps[k].registered
                == Set::<nat>::empty(),
    ensures
        entries(written, 0, steps.len() as int) == entries(written, 0, first) + own_entries(
            steps,
            section,
            written,
            first,
            last + 1,
        ) + entries(written, last + 1, steps.len() as int),
{
    lemma_own_entries(steps, section, first, last, turns, written);
    lemma_entries_split(written, 0, first, last + 1);
    lemma_entries_split(written, 0, last + 1, steps.len() as int);
}

/// Exclusive access ends with the body. The poll at which the body of a critical
/// section is done, or finds its handle gone, ends the wait for the section. If
/// the context waited for nothing when the section was registered, and nothing
/// else was registered since, it then waits for nothing.
pub proof fn law_access_ends_with_body<Fut: Future>(
    steps: Seq<Step>,
    section: nat,
    start: int,
    done: int,
    turn: Turn<Fut>,
)
    requires
        registers(steps, start, section),
        start < done < steps.len(),
        steps[done].task == section,
        turn.taken(),
        !turn.body_pending(),
        steps[done].returned == turn.returned,
    ensures
        !waiting(steps.take(done + 1)).contains(section),
        waiting(steps.take(start)) =~= Set::<nat>::empty() && (forall|t: nat| #[trigger]
            registered_since(steps, start, done + 1, t) ==> t == section) ==> waiting(
            steps.take(done + 1),
        ) =~= Set::<nat>::empty(),
{
    assert(steps.take(done + 1).drop_last() =~= steps.take(done));
    assert(steps.take(done + 1).last() == steps[done]);
    if waiting(steps.take(start)) =~= Set::<nat>::empty() && (forall|t: nat| #[trigger]
        registered_since(steps, start, done + 1, t) ==> t == section) {
        assert forall|t: nat| !#[trigger] waiting(steps.take(done + 1)).contains(t) by {
            if waiting(steps.take(done + 1)).contains(t) {
                lemma_waiting_was_registered(steps, start, done + 1, t);
            }
        }
    }
}

} // verus!
