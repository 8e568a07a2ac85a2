//! What holds of a session over its whole life.

use crate::gateway::ws::{ActionView, Event, OutboundView, Phase, SessionState};
use vstd::prelude::*;

verus! {

/// An event together with the clock readings at which it happened.
pub ghost struct Occurrence {
    pub event: Event,
    pub now: int,
    pub time: Seq<char>,
}

/// The session after everything in `history` happened, first entry first,
/// and all the actions it answered with, in order.
pub open spec fn run(start: SessionState, history: Seq<Occurrence>) -> (
    SessionState,
    Seq<ActionView>,
)
    decreases history.len(),
{
    if history.len() == 0 {
        (start, Seq::empty())
    } else {
        let before = run(start, history.drop_last());
        let last = history.last();
        let after = before.0.step(last.event, last.now, last.time);
        (after.0, before.1 + after.1)
    }
}

/// Whether `a` hands a `Connect` for `connection` to the server.
pub open spec fn is_connect(a: ActionView, connection: Seq<char>) -> bool {
    a matches ActionView::Emit(OutboundView::Connect { connection: c, .. }) && c == connection
}

/// Whether `a` hands a `Disconnect` for `connection` to the server.
pub open spec fn is_disconnect(a: ActionView, connection: Seq<char>) -> bool {
    a matches ActionView::Emit(OutboundView::Disconnect { connection: c, .. }) && c == connection
}

/// Whether `a` hands any `Connect` or `Disconnect` to the server.
pub open spec fn is_lifecycle(a: ActionView) -> bool {
    a matches ActionView::Emit(o) && (o is Connect || o is Disconnect)
}

/// How many of `actions` satisfy `p`.
pub open spec fn count(actions: Seq<ActionView>, p: spec_fn(ActionView) -> bool) -> nat
    decreases actions.len(),
{
    if actions.len() == 0 {
        0
    } else {
        count(actions.drop_last(), p) + if p(actions.last()) {
            1nat
        } else {
            0nat
        }
    }
}

proof fn count_of_concat(a: Seq<ActionView>, b: Seq<ActionView>, p: spec_fn(ActionView) -> bool)
    ensures
        count(a + b, p) == count(a, p) + count(b, p),
    decreases b.len(),
{
    if b.len() == 0 {
        assert(a + b =~= a);
    } else {
        assert((a + b).drop_last() =~= a + b.drop_last());
        assert((a + b).last() == b.last());
        count_of_concat(a, b.drop_last(), p);
    }
}

proof fn count_of_short(p: spec_fn(ActionView) -> bool, x: ActionView, y: ActionView)
    ensures
        count(Seq::empty(), p) == 0,
        count(seq![x], p) == if p(x) {
            1nat
        } else {
            0nat
        },
        count(seq![x, y], p) == (if p(x) {
            1nat
        } else {
            0nat
        }) + (if p(y) {
            1nat
        } else {
            0nat
        }),
{
    assert(seq![x].drop_last() =~= Seq::<ActionView>::empty());
    assert(seq![x, y].drop_last() =~= seq![x]);
    reveal_with_fuel(count, 3);
}

/// What one step adds to the counts.
proof fn step_counts(s: SessionState, o: Occurrence)
    ensures
        ({
            let after = s.step(o.event, o.now, o.time);
            let c = |a: ActionView| is_connect(a, s.connection);
            let d = |a: ActionView| is_disconnect(a, s.connection);
            let l = |a: ActionView| is_lifecycle(a);
            &&& after.0.connection == s.connection
            &&& after.0.endpoint == s.endpoint
            &&& after.0.context == s.context
            &&& count(after.1, c) == if s.phase == Phase::Created && after.0.phase
                != Phase::Created {
                1nat
            } else {
                0nat
            }
            &&& count(after.1, d) == if !s.disconnect_sent && after.0.disconnect_sent {
                1nat
            } else {
                0nat
            }
            &&& count(after.1, l) == count(after.1, c) + count(after.1, d)
            &&& s.phase != Phase::Created ==> after.0.phase != Phase::Created
            &&& s.disconnect_sent ==> after.0.disconnect_sent
            &&& s.phase == Phase::Created ==> after.0.phase == Phase::Created || after.0.phase
                == Phase::Opening
            &&& after.0.phase == Phase::Closed ==> after.0.disconnect_sent || s.phase
                == Phase::Closed
            &&& after.0.phase == Phase::Created ==> !after.0.disconnect_sent || s.disconnect_sent
        }),
{
    let after = s.step(o.event, o.now, o.time);
    let c = |a: ActionView| is_connect(a, s.connection);
    let d = |a: ActionView| is_disconnect(a, s.connection);
    let l = |a: ActionView| is_lifecycle(a);
    if after.1.len() == 0 {
        assert(after.1 =~= Seq::<ActionView>::empty());
        count_of_short(c, arbitrary(), arbitrary());
        count_of_short(d, arbitrary(), arbitrary());
        count_of_short(l, arbitrary(), arbitrary());
    } else if after.1.len() == 1 {
        assert(after.1 =~= seq![after.1[0]]);
        count_of_short(c, after.1[0], arbitrary());
        count_of_short(d, after.1[0], arbitrary());
        count_of_short(l, after.1[0], arbitrary());
    } else {
        assert(after.1.len() == 2);
        assert(after.1 =~= seq![after.1[0], after.1[1]]);
        count_of_short(c, after.1[0], after.1[1]);
        count_of_short(d, after.1[0], after.1[1]);
        count_of_short(l, after.1[0], after.1[1]);
    }
}

/// One `Connect` and one `Disconnect` per session: whatever happens to a
/// session, in whatever order, it hands the server a `Connect` for its
/// connection exactly once, when it starts, and a `Disconnect` at most once.
/// A session that has started and stopped has sent exactly one of each, and
/// no `Connect` or `Disconnect` for any other connection.
pub proof fn one_connect_one_disconnect(start: SessionState, history: Seq<Occurrence>)
    requires
        start.phase == Phase::Created,
        !start.disconnect_sent,
    ensures
        ({
            let end = run(start, history);
            let connects = count(end.1, |a: ActionView| is_connect(a, start.connection));
            let disconnects = count(end.1, |a: ActionView| is_disconnect(a, start.connection));
            let all = count(end.1, |a: ActionView| is_lifecycle(a));
            &&& connects == if end.0.phase == Phase::Created {
                0nat
            } else {
                1nat
            }
            &&& disconnects == if end.0.disconnect_sent {
                1nat
            } else {
                0nat
            }
            &&& all == connects + disconnects
            &&& end.0.phase == Phase::Closed ==> connects == 1 && disconnects == 1
            &&& end.0.connection == start.connection
            &&& end.0.endpoint == start.endpoint
            &&& end.0.context == start.context
        }),
    decreases history.len(),
{
    let c = |a: ActionView| is_connect(a, start.connection);
    let d = |a: ActionView| is_disconnect(a, start.connection);
    let l = |a: ActionView| is_lifecycle(a);
    if history.len() == 0 {
        count_of_short(c, arbitrary(), arbitrary());
        count_of_short(d, arbitrary(), arbitrary());
        count_of_short(l, arbitrary(), arbitrary());
    } else {
        one_connect_one_disconnect(start, history.drop_last());
        let before = run(start, history.drop_last());
        let last = history.last();
        let after = before.0.step(last.event, last.now, last.time);
        step_counts(before.0, last);
        assert((|a: ActionView| is_connect(a, before.0.connection)) == c) by {
            assert(forall|a: ActionView| is_connect(a, before.0.connection) == is_connect(a, start.connection));
            assert((|a: ActionView| is_connect(a, before.0.connection)) =~= c);
        }
        assert((|a: ActionView| is_disconnect(a, before.0.connection)) == d) by {
            assert((|a: ActionView| is_disconnect(a, before.0.connection)) =~= d);
        }
        count_of_concat(before.1, after.1, c);
        count_of_concat(before.1, after.1, d);
        count_of_concat(before.1, after.1, l);
    }
}

/// Whether every entry of `history` is a tick of the timer.
pub open spec fn only_ticks(history: Seq<Occurrence>) -> bool {
    forall|i: int| 0 <= i < history.len() ==> (#[trigger] history[i]).event == Event::Tick
}

/// Heartbeat timeout: while nothing but the timer happens to a live session,
/// ticks up to the deadline leave it live, and the first tick after the
/// deadline puts it into `Closing` and sends its `Disconnect`.
pub proof fn silence_ends_session(session: SessionState, ticks: Seq<Occurrence>)
    requires
        session.phase == Phase::Live,
        !session.disconnect_sent,
        session.timeout >= 0,
        ticks.len() >= 1,
        only_ticks(ticks),
        forall|i: int|
            0 <= i < ticks.len() - 1 ==> (#[trigger] ticks[i]).now <= session.heartbeat
                + session.timeout,
        ticks.last().now > session.heartbeat + session.timeout,
    ensures
        run(session, ticks.drop_last()).0 == session,
        run(session, ticks).0.phase == Phase::Closing,
        run(session, ticks).0.disconnect_sent,
        count(run(session, ticks).1, |a: ActionView| is_disconnect(a, session.connection)) == 1,
{
    quiet_ticks_change_nothing(session, ticks.drop_last());
    let before = run(session, ticks.drop_last());
    let last = ticks.last();
    assert(last.event == Event::Tick);
    let after = session.step(last.event, last.now, last.time);
    assert(session.timed_out(last.now));
    let d = |a: ActionView| is_disconnect(a, session.connection);
    assert(after.1 =~= seq![session.disconnect_command(last.time)]);
    count_of_short(d, after.1[0], arbitrary());
    count_of_concat(before.1, after.1, d);
}

proof fn quiet_ticks_change_nothing(session: SessionState, ticks: Seq<Occurrence>)
    requires
        session.phase == Phase::Live,
        session.timeout >= 0,
        only_ticks(ticks),
        forall|i: int|
            0 <= i < ticks.len() ==> (#[trigger] ticks[i]).now <= session.heartbeat
                + session.timeout,
    ensures
        run(session, ticks).0 == session,
        count(run(session, ticks).1, |a: ActionView| is_disconnect(a, session.connection)) == 0,
    decreases ticks.len(),
{
    let d = |a: ActionView| is_disconnect(a, session.connection);
    if ticks.len() == 0 {
        count_of_short(d, arbitrary(), arbitrary());
    } else {
        let earlier = ticks.drop_last();
        assert forall|i: int| 0 <= i < earlier.len() implies (#[trigger] earlier[i]).now
            <= session.heartbeat + session.timeout by {
            assert(earlier[i] == ticks[i]);
        }
        assert(only_ticks(earlier)) by {
            assert forall|i: int| 0 <= i < earlier.len() implies (#[trigger] earlier[i]).event
                == Event::Tick by {
                assert(earlier[i] == ticks[i]);
            }
        }
        quiet_ticks_change_nothing(session, earlier);
        let last = ticks.last();
        assert(last == ticks[ticks.len() - 1]);
        assert(last.event == Event::Tick);
        assert(!session.timed_out(last.now));
        let after = session.step(last.event, last.now, last.time);
        count_of_short(d, after.1[0], arbitrary());
        assert(after.1 =~= seq![after.1[0]]);
        count_of_concat(run(session, earlier).1, after.1, d);
    }
}

/// A timer that fires every `interval` milliseconds, and that has fired at or
/// before the deadline, fires again after the deadline and no later than one
/// interval after it. Together with [`silence_ends_session`]: a client that
/// falls silent loses its session within timeout plus interval.
pub proof fn a_tick_falls_within_one_interval(first: int, interval: int, deadline: int) -> (k: nat)
    requires
        interval > 0,
        first <= deadline,
    ensures
        deadline < first + k * interval <= deadline + interval,
        k >= 1 ==> first + (k - 1) * interval <= deadline,
{
    let k = ((deadline - first) / interval + 1) as nat;
    assert(deadline < first + k * interval <= deadline + interval && first + (k - 1) * interval
        <= deadline) by (nonlinear_arith)
        requires
            interval > 0,
            first <= deadline,
            k == (deadline - first) / interval + 1,
    ;
    k
}

} // verus!
