//! The life of connections: what happens to them, in which order, and what
//! follows for the requests on them.
//!
//! A life is a sequence of events. It takes as given that a read of a flag gives
//! what was last written to it, and that each connection's flag is its own.

use crate::error::RequestError;
use crate::h2::cause::Cause;
use vstd::prelude::*;

verus! {

/// What happens to a connection. Each connection has a number.
pub enum Event<'a> {
    /// It is established, as by [`Connection::new`](crate::h2::Connection::new):
    /// its flag is made, not set.
    Established { conn: nat },
    /// Its end is recorded, as by
    /// [`ConnectionTask::ended`](crate::h2::ConnectionTask::ended), which takes
    /// the task: no connection's end is recorded twice.
    Ended { conn: nat, end: Result<(), Vec<Cause<'a>>> },
    /// It is dropped, which cancels the requests that are queued on it. The task
    /// gets it back to drop it only once its end is recorded.
    Dropped { conn: nat },
    /// A request on it failed with `error`, and the caller is told `marked`, as
    /// by [`mark_now`](crate::h2::mark_now).
    Failed { conn: nat, error: hyper::Error, marked: RequestError },
    /// A request on it was not answered but for `error`, and the caller is told
    /// `answer`, as by [`refuse_now`](crate::h2::refuse_now).
    Unanswered { conn: nat, recovered: bool, error: hyper::Error, answer: RequestError },
}

impl<'a> Event<'a> {
    /// The connection that this happens to.
    pub open spec fn conn(self) -> nat {
        match self {
            Event::Established { conn } => conn,
            Event::Ended { conn, .. } => conn,
            Event::Dropped { conn } => conn,
            Event::Failed { conn, .. } => conn,
            Event::Unanswered { conn, .. } => conn,
        }
    }
}

/// The connection was established.
pub open spec fn is_established(life: Seq<Event>, conn: nat) -> bool {
    exists|i: int| 0 <= i < life.len() && #[trigger] life[i] is Established && life[i].conn() == conn
}

/// The connection's end was recorded.
pub open spec fn is_ended(life: Seq<Event>, conn: nat) -> bool {
    exists|i: int| 0 <= i < life.len() && #[trigger] life[i] is Ended && life[i].conn() == conn
}

/// What a read of the connection's flag gives: what was last written to it.
pub open spec fn flag(life: Seq<Event>, conn: nat) -> bool
    decreases life.len(),
{
    if life.len() == 0 {
        false
    } else {
        match life.last() {
            Event::Established { conn: c } if c == conn => false,
            Event::Ended { conn: c, end } if c == conn => crate::h2::ended_by_peer(end),
            _ => flag(life.drop_last(), conn),
        }
    }
}

/// The event can follow on this life.
pub open spec fn can_follow(life: Seq<Event>, event: Event) -> bool {
    match event {
        Event::Established { conn } => forall|i: int|
            0 <= i < life.len() ==> (#[trigger] life[i]).conn() != conn,
        Event::Ended { conn, .. } => is_established(life, conn) && !is_ended(life, conn),
        Event::Dropped { conn } => is_ended(life, conn),
        Event::Failed { conn, error, marked } => is_established(life, conn) && crate::h2::marks(
            error,
            flag(life, conn),
            marked,
        ),
        Event::Unanswered { conn, recovered, error, answer } => is_established(life, conn)
            && answer.refuses_or_preserves(recovered && flag(life, conn), error),
    }
}

/// The life is one that connections can have.
pub open spec fn possible(life: Seq<Event>) -> bool {
    forall|i: int| 0 <= i < life.len() ==> can_follow(life.take(i), #[trigger] life[i])
}

proof fn lemma_prefix(life: Seq<Event>, n: int)
    requires
        possible(life),
        0 <= n <= life.len(),
    ensures
        possible(life.take(n)),
{
    assert forall|i: int| 0 <= i < n implies can_follow(
        life.take(n).take(i),
        #[trigger] life.take(n)[i],
    ) by {
        assert(life.take(n).take(i) =~= life.take(i));
        assert(can_follow(life.take(i), life[i]));
    }
}

/// The flag is not set until the connection's end is recorded.
pub proof fn law_not_set_before_the_end(life: Seq<Event>, conn: nat)
    requires
        !is_ended(life, conn),
    ensures
        !flag(life, conn),
    decreases life.len(),
{
    if life.len() > 0 {
        let rest = life.drop_last();
        assert(life.last() == life[life.len() - 1]);
        assert forall|i: int| 0 <= i < rest.len() && #[trigger] rest[i] is Ended implies rest[i].conn()
            != conn by {
            assert(rest[i] == life[i]);
        }
        law_not_set_before_the_end(rest, conn);
    }
}

/// Once the connection's end is recorded, the flag says for good who ended it.
pub proof fn law_end_is_for_good(life: Seq<Event>, k: int)
    requires
        possible(life),
        0 <= k < life.len(),
        life[k] is Ended,
    ensures
        flag(life, life[k].conn()) == crate::h2::ended_by_peer(life[k]->end),
    decreases life.len(),
{
    let conn = life[k].conn();
    let n = life.len() - 1;
    let rest = life.drop_last();
    assert(rest =~= life.take(n));
    if k < n {
        assert(rest[k] == life[k]);
        lemma_prefix(life, n);
        law_end_is_for_good(rest, k);
        assert(can_follow(life.take(n), life[n]));
        assert(is_ended(rest, conn));
        assert(rest[k].conn() == conn);
    }
}

/// While a connection is running, none of its requests is told to be canceled by
/// the peer's GOAWAY, and none is refused.
pub proof fn law_not_marked_while_running(life: Seq<Event>, i: int)
    requires
        possible(life),
        0 <= i < life.len(),
        !is_ended(life.take(i), life[i].conn()),
    ensures
        life[i] matches Event::Failed { error, marked, .. } ==> marked == RequestError::Hyper(error),
        life[i] matches Event::Unanswered { error, answer, .. } ==> answer == RequestError::Hyper(
            error,
        ),
{
    assert(can_follow(life.take(i), life[i]));
    law_not_set_before_the_end(life.take(i), life[i].conn());
}

/// How a connection ended is recorded before the requests that are queued on it
/// are canceled: those whose errors come after it was dropped are told whether
/// the peer's GOAWAY shut it down.
pub proof fn law_recorded_before_canceled(life: Seq<Event>, j: int, i: int)
    requires
        possible(life),
        0 <= j < i < life.len(),
        life[j] is Dropped,
        life[i].conn() == life[j].conn(),
    ensures
        exists|k: int|
            {
                &&& 0 <= k < j
                &&& #[trigger] life[k] is Ended
                &&& life[k].conn() == life[j].conn()
                &&& (life[i] matches Event::Failed { error, marked, .. } ==> crate::h2::marks(
                    error,
                    crate::h2::ended_by_peer(life[k]->end),
                    marked,
                ))
                &&& (life[i] matches Event::Unanswered { recovered, error, answer, .. }
                    ==> answer.refuses_or_preserves(
                    recovered && crate::h2::ended_by_peer(life[k]->end),
                    error,
                ))
            },
{
    let before = life.take(j);
    assert(can_follow(before, life[j]));
    let k = choose|k: int|
        0 <= k < before.len() && #[trigger] before[k] is Ended && before[k].conn() == life[j].conn();
    assert(before[k] == life[k]);
    let now = life.take(i);
    assert(now[k] == life[k]);
    lemma_prefix(life, i);
    law_end_is_for_good(now, k);
    assert(can_follow(now, life[i]));
}

/// What happens to one connection never touches the flag of another.
pub proof fn law_flags_are_separate(life: Seq<Event>, event: Event, other: nat)
    requires
        event.conn() != other,
    ensures
        flag(life.push(event), other) == flag(life, other),
{
    assert(life.push(event).drop_last() =~= life);
}

/// Where the end of one connection is attributed to the peer's GOAWAY, its flag
/// is set, and that of another connection that is still running is not.
pub proof fn law_ends_are_separate(life: Seq<Event>, a: nat, b: nat, k: int)
    requires
        possible(life),
        0 <= k < life.len(),
        life[k] matches Event::Ended { conn, end } && conn == a && crate::h2::ended_by_peer(end),
        !is_ended(life, b),
    ensures
        flag(life, a),
        !flag(life, b),
{
    law_end_is_for_good(life, k);
    law_not_set_before_the_end(life, b);
}

/// Once a request on a connection is told to be canceled by the peer's GOAWAY,
/// so is every later one that hyper cancels, and every later one that is
/// recovered is refused.
pub proof fn law_marked_stays_marked(life: Seq<Event>, i: int, j: int)
    requires
        possible(life),
        0 <= i < j < life.len(),
        life[i] matches Event::Failed { marked, .. } && marked is GoAwayCanceled,
        life[j].conn() == life[i].conn(),
    ensures
        life[j] matches Event::Failed { error, marked, .. } ==> (marked is GoAwayCanceled
            <==> crate::error::hyper_is_canceled(error)),
        life[j] matches Event::Unanswered { recovered, answer, .. } ==> (answer.is_refusal()
            <==> recovered),
{
    let conn = life[i].conn();
    let before = life.take(i);
    assert(can_follow(before, life[i]));
    if !is_ended(before, conn) {
        law_not_set_before_the_end(before, conn);
    }
    let k = choose|k: int|
        0 <= k < before.len() && #[trigger] before[k] is Ended && before[k].conn() == conn;
    lemma_prefix(life, i);
    law_end_is_for_good(before, k);
    let now = life.take(j);
    assert(before[k] == life[k] && now[k] == life[k]);
    lemma_prefix(life, j);
    law_end_is_for_good(now, k);
    assert(can_follow(now, life[j]));
}

/// Requests leave the flag as it is: neither telling one its error nor answering
/// one changes what the next is told. Only being established and ending do.
pub proof fn law_requests_leave_the_flag(life: Seq<Event>, event: Event, conn: nat)
    requires
        !(event is Established),
        !(event is Ended),
    ensures
        flag(life.push(event), conn) == flag(life, conn),
{
    assert(life.push(event).drop_last() =~= life);
}

/// A request is told to be canceled by the peer's GOAWAY, or refused, only if the
/// peer's GOAWAY was recorded before as the end of its connection.
pub proof fn law_marked_only_after_goaway(life: Seq<Event>, i: int)
    requires
        possible(life),
        0 <= i < life.len(),
        (life[i] matches Event::Failed { marked, .. } && marked is GoAwayCanceled) || (
        life[i] matches Event::Unanswered { answer, .. } && answer.is_refusal()),
    ensures
        exists|k: int|
            {
                &&& 0 <= k < i
                &&& #[trigger] life[k] is Ended
                &&& life[k].conn() == life[i].conn()
                &&& crate::h2::ended_by_peer(life[k]->end)
            },
{
    let conn = life[i].conn();
    let before = life.take(i);
    assert(can_follow(before, life[i]));
    if !is_ended(before, conn) {
        law_not_set_before_the_end(before, conn);
    }
    let k = choose|k: int|
        0 <= k < before.len() && #[trigger] before[k] is Ended && before[k].conn() == conn;
    lemma_prefix(life, i);
    law_end_is_for_good(before, k);
    assert(before[k] == life[k]);
}

/// Once a connection's end is recorded as the peer's GOAWAY, every request that
/// is recovered from it is refused and every one that is canceled is marked,
/// however many were told before.
pub proof fn law_all_are_told_of_the_goaway(life: Seq<Event>, k: int, i: int)
    requires
        possible(life),
        0 <= k < i < life.len(),
        life[k] is Ended,
        crate::h2::ended_by_peer(life[k]->end),
        life[i].conn() == life[k].conn(),
    ensures
        life[i] matches Event::Failed { error, marked, .. } ==> (
        crate::error::hyper_is_canceled(error) ==> marked is GoAwayCanceled),
        life[i] matches Event::Unanswered { recovered, answer, .. } ==> (recovered
            ==> answer.is_refusal()),
{
    let now = life.take(i);
    assert(now[k] == life[k]);
    lemma_prefix(life, i);
    law_end_is_for_good(now, k);
    assert(can_follow(now, life[i]));
}

} // verus!
