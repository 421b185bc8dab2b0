//! The order in which the steps of two requests reach the shared history. A
//! request appends its messages step by step, and the one lock of the session
//! lets a request take all its steps before another takes any. This module
//! states what that discipline gives: the history holds the messages of one
//! request, then those of the other, never a mixture.

use crate::memory::{after_appends, lemma_appends_keep_newest, retain_last};
use vstd::prelude::*;

verus! {

/// One step of a request: what it appends, and which of the two requests it
/// belongs to.
pub struct Step<T> {
    pub second: bool,
    pub message: T,
}

/// What the steps of a schedule append, in the order of the schedule.
pub open spec fn messages<T>(schedule: Seq<Step<T>>) -> Seq<T> {
    schedule.map_values(|step: Step<T>| step.message)
}

/// What the steps of one of the two requests append, in the order of the
/// schedule.
pub open spec fn messages_of<T>(schedule: Seq<Step<T>>, second: bool) -> Seq<T>
    decreases schedule.len(),
{
    if schedule.len() == 0 {
        Seq::empty()
    } else if schedule[0].second == second {
        seq![schedule[0].message] + messages_of(schedule.drop_first(), second)
    } else {
        messages_of(schedule.drop_first(), second)
    }
}

/// The schedule is one of the two requests: the first appends `first`, the
/// second appends `second`, each in its own order, and the schedule holds
/// nothing else.
pub open spec fn schedules<T>(schedule: Seq<Step<T>>, first: Seq<T>, second: Seq<T>) -> bool {
    &&& messages_of(schedule, false) == first
    &&& messages_of(schedule, true) == second
}

/// What the lock gives: a request that has taken a step takes all its steps
/// before the other request takes one. No step of one request stands between
/// two steps of the other.
pub open spec fn holds_exclusively<T>(schedule: Seq<Step<T>>) -> bool {
    forall|i: int, j: int, k: int|
        #![trigger schedule[i], schedule[j], schedule[k]]
        0 <= i < j < k < schedule.len() && schedule[i].second == schedule[k].second
            ==> schedule[j].second == schedule[i].second
}

/// The number of steps at the head of a schedule that belong to the request
/// `second`.
pub open spec fn head_run<T>(schedule: Seq<Step<T>>, second: bool) -> nat
    decreases schedule.len(),
{
    if schedule.len() == 0 || schedule[0].second != second {
        0
    } else {
        1 + head_run(schedule.drop_first(), second)
    }
}

/// Every step of the schedule belongs to the request `second`.
pub open spec fn all_of<T>(schedule: Seq<Step<T>>, second: bool) -> bool {
    forall|i: int| 0 <= i < schedule.len() ==> (#[trigger] schedule[i]).second == second
}

/// The steps at the head of a schedule that belong to one request are a run
/// of that request alone, and the step after the run belongs to the other.
pub proof fn lemma_head_run<T>(schedule: Seq<Step<T>>, second: bool)
    ensures
        head_run(schedule, second) <= schedule.len(),
        all_of(schedule.take(head_run(schedule, second) as int), second),
        head_run(schedule, second) < schedule.len() ==> schedule[head_run(
            schedule,
            second,
        ) as int].second != second,
    decreases schedule.len(),
{
    if schedule.len() > 0 && schedule[0].second == second {
        let rest = schedule.drop_first();
        lemma_head_run(rest, second);
        let n = head_run(rest, second);
        assert forall|i: int| 0 <= i < n + 1 implies (#[trigger] schedule.take(
            n as int + 1,
        )[i]).second == second by {
            if i > 0 {
                assert(schedule.take(n as int + 1)[i] == rest.take(n as int)[i - 1]);
            }
        }
        if n < rest.len() {
            assert(schedule[n as int + 1] == rest[n as int]);
        }
    }
}

/// A schedule of one request alone appends that request's messages and none
/// of the other's.
pub proof fn lemma_messages_of_one<T>(schedule: Seq<Step<T>>, second: bool)
    requires
        all_of(schedule, second),
    ensures
        messages_of(schedule, second) == messages(schedule),
        messages_of(schedule, !second) == Seq::<T>::empty(),
    decreases schedule.len(),
{
    if schedule.len() == 0 {
        assert(messages(schedule) =~= Seq::<T>::empty());
    } else {
        let rest = schedule.drop_first();
        assert(schedule[0].second == second);
        assert forall|i: int| 0 <= i < rest.len() implies (#[trigger] rest[i]).second
            == second by {
            assert(rest[i] == schedule[i + 1]);
        }
        lemma_messages_of_one(rest, second);
        assert(messages(schedule) =~= seq![schedule[0].message] + messages(rest));
    }
}

/// What one request appends in a schedule made of two parts is what it
/// appends in the one part, then what it appends in the other.
pub proof fn lemma_messages_of_parts<T>(head: Seq<Step<T>>, tail: Seq<Step<T>>, second: bool)
    ensures
        messages_of(head + tail, second) == messages_of(head, second) + messages_of(
            tail,
            second,
        ),
    decreases head.len(),
{
    let whole = head + tail;
    if head.len() == 0 {
        assert(whole =~= tail);
        assert(messages_of(head, second) + messages_of(tail, second) =~= messages_of(
            tail,
            second,
        ));
    } else {
        assert(whole[0] == head[0]);
        assert(whole.drop_first() =~= head.drop_first() + tail);
        lemma_messages_of_parts(head.drop_first(), tail, second);
        let rest = messages_of(head.drop_first(), second);
        if head[0].second == second {
            assert(seq![head[0].message] + (rest + messages_of(tail, second)) =~= (seq![
                head[0].message,
            ] + rest) + messages_of(tail, second));
        }
    }
}

/// Under the lock the two requests are never interleaved: what the schedule
/// appends is all of one request and then all of the other.
pub proof fn lemma_exclusive_schedule_is_serial<T>(
    schedule: Seq<Step<T>>,
    first: Seq<T>,
    second: Seq<T>,
)
    requires
        schedules(schedule, first, second),
        holds_exclusively(schedule),
    ensures
        messages(schedule) == first + second || messages(schedule) == second + first,
{
    if schedule.len() == 0 {
        assert(messages(schedule) =~= first + second);
    } else {
        let leader = schedule[0].second;
        let n = head_run(schedule, leader);
        lemma_head_run(schedule, leader);
        let head = schedule.take(n as int);
        let tail = schedule.skip(n as int);
        assert(n > 0);
        assert(schedule =~= head + tail);
        assert forall|k: int| 0 <= k < tail.len() implies (#[trigger] tail[k]).second
            != leader by {
            if k > 0 && tail[k].second == leader {
                assert(schedule[n as int + k] == tail[k]);
                assert(schedule[0].second == schedule[n as int + k].second);
                assert(schedule[n as int].second == schedule[0].second);
            }
            if k == 0 {
                assert(tail[0] == schedule[n as int]);
            }
        }
        lemma_messages_of_one(head, leader);
        lemma_messages_of_one(tail, !leader);
        lemma_messages_of_parts(head, tail, leader);
        lemma_messages_of_parts(head, tail, !leader);
        assert(messages(schedule) =~= messages(head) + messages(tail));
        assert(messages_of(schedule, leader) =~= messages(head));
        assert(messages_of(schedule, !leader) =~= messages(tail));
    }
}

/// Two requests on one session under the lock: whichever takes the lock
/// first, the history afterwards is what it was, then the messages of one
/// request, then those of the other, cut to the capacity `k`. Where the
/// capacity admits them all, every message is there exactly once and the two
/// requests are not mixed.
pub proof fn lemma_locked_requests_do_not_interleave<T>(
    start: Seq<T>,
    schedule: Seq<Step<T>>,
    first: Seq<T>,
    second: Seq<T>,
    k: nat,
)
    requires
        start.len() <= k,
        schedules(schedule, first, second),
        holds_exclusively(schedule),
    ensures
        after_appends(start, messages(schedule), k) == retain_last(start + first + second, k)
            || after_appends(start, messages(schedule), k) == retain_last(
            start + second + first,
            k,
        ),
        start.len() + first.len() + second.len() <= k ==> after_appends(
            start,
            messages(schedule),
            k,
        ) == start + first + second || after_appends(start, messages(schedule), k) == start
            + second + first,
{
    lemma_exclusive_schedule_is_serial(schedule, first, second);
    lemma_appends_keep_newest(start, messages(schedule), k);
    if messages(schedule) == first + second {
        assert(start + (first + second) =~= start + first + second);
    } else {
        assert(start + (second + first) =~= start + second + first);
    }
}

} // verus!
