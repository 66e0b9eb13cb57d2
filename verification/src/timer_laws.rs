//! What holds of the timer over whole runs and across several calls.
use crate::events::EventView;
use crate::models::{seconds_from, SessionView};
use crate::timer_model::{LoopHandle, StartOutcome, TimerModel};
use vstd::prelude::*;

verus! {

/// The engine after the loops named in `handles` have ticked, one after the
/// other.
pub open spec fn after_ticks(m: TimerModel, handles: Seq<LoopHandle>) -> TimerModel
    decreases handles.len(),
{
    if handles.len() == 0 {
        m
    } else {
        after_ticks(m.tick(handles[0]), handles.subrange(1, handles.len() as int))
    }
}

/// The engine after `n` ticks of the loop named `h`.
pub open spec fn run(m: TimerModel, h: LoopHandle, n: nat) -> TimerModel
    decreases n,
{
    if n == 0 {
        m
    } else {
        run(m.tick(h), h, (n - 1) as nat)
    }
}

/// How many of the first `n` ticks of the loop named `h` emit an event that
/// `kind` holds of.
pub open spec fn emitted(
    m: TimerModel,
    h: LoopHandle,
    n: nat,
    kind: spec_fn(EventView) -> bool,
) -> nat
    decreases n,
{
    if n == 0 {
        0
    } else {
        let here: nat = match m.tick_event(h) {
            Some(e) => if kind(e) {
                1
            } else {
                0
            },
            None => 0,
        };
        here + emitted(m.tick(h), h, (n - 1) as nat, kind)
    }
}

/// Holds of the per-second countdown events.
pub open spec fn is_update(e: EventView) -> bool {
    e is TimerUpdate
}

/// Holds of the events that announce the next task.
pub open spec fn is_task_changed(e: EventView) -> bool {
    e is TaskChanged
}

/// Holds of the event that ends a session.
pub open spec fn is_session_finished(e: EventView) -> bool {
    e is SessionFinished
}

/// The seconds still to count down: the rest of the current task and all of
/// the tasks after it.
pub open spec fn countdown_left(m: TimerModel) -> nat {
    m.remaining + seconds_from(m.tasks(), m.index + 1)
}

/// The task boundaries still to cross, the end of the session included.
pub open spec fn transitions_left(m: TimerModel) -> nat {
    if m.tasks().len() == 0 {
        1
    } else {
        (m.tasks().len() - m.index) as nat
    }
}

/// Holds of an engine that rests at the end of its session: nothing is left
/// of the countdown, and the index names the last task, or is zero where the
/// session has no task.
pub open spec fn parked(m: TimerModel) -> bool {
    &&& m.remaining == 0
    &&& m.tasks().len() > 0 ==> m.index == m.tasks().len() - 1
    &&& m.tasks().len() == 0 ==> m.index == 0
}

/// The ticks after which a running engine stops by itself.
pub open spec fn ticks_left(m: TimerModel) -> nat {
    if m.running {
        countdown_left(m) + transitions_left(m)
    } else {
        0
    }
}

/// Every operation keeps the engine's invariant, and so does the initial
/// state.
pub proof fn law_invariant_kept(m: TimerModel, session: SessionView, h: LoopHandle)
    requires
        m.wf(),
    ensures
        TimerModel::initial().wf(),
        m.load(session).wf(),
        m.start().wf(),
        m.pause().wf(),
        m.tick(h).wf(),
{
}

/// At most one loop drives the engine, and it is the loop that `start`
/// asked for last: the loop that `start` has cancelled drives it no more.
pub proof fn law_single_driver(m: TimerModel, one: LoopHandle, other: LoopHandle)
    requires
        m.wf(),
    ensures
        m.driven_by(one) && m.driven_by(other) ==> one == other,
        m.can_start() ==> m.start().driven_by(LoopHandle { id: m.next_handle }),
        m.can_start() && m.handle == Some(one) ==> !m.start().driven_by(one),
{
}

/// One tick of the driving loop either counts one second down, or crosses
/// one task boundary, or ends the session when nothing is left.
pub proof fn law_tick_progress(m: TimerModel, h: LoopHandle)
    requires
        m.wf(),
        m.driven_by(h),
    ensures
        m.tick(h).wf(),
        m.tick(h).session == m.session,
        m.tick(h).handle == m.handle,
        ticks_left(m) == ticks_left(m.tick(h)) + 1,
        m.tick_event(h) matches Some(e) && e.ends_run() == !m.tick(h).running,
        m.tick_event(h) matches Some(e) && match e {
            EventView::TimerUpdate(u) => {
                &&& m.tick(h).driven_by(h)
                &&& countdown_left(m.tick(h)) + 1 == countdown_left(m)
                &&& transitions_left(m.tick(h)) == transitions_left(m)
                &&& u.remaining_seconds == m.tick(h).remaining
                &&& m.tick(h).status() == Some(u)
            },
            EventView::TaskChanged(name) => {
                &&& m.tick(h).driven_by(h)
                &&& countdown_left(m.tick(h)) == countdown_left(m)
                &&& transitions_left(m.tick(h)) + 1 == transitions_left(m)
                &&& m.tick(h).index == m.index + 1
                &&& m.tick(h).remaining == m.tasks()[m.index as int + 1].seconds()
                &&& name == m.tasks()[m.index as int + 1].name
            },
            EventView::SessionFinished => {
                &&& !m.tick(h).running
                &&& countdown_left(m) == 0
                &&& transitions_left(m) == 1
                &&& parked(m.tick(h))
                &&& m.tick(h).index == m.index
            },
            EventView::ActivityWarning => false,
        },
{
    let tasks = m.tasks();
    if m.remaining > 0 {
    } else if m.has_next_task() {
        assert(seconds_from(tasks, m.index + 1) == tasks[m.index as int + 1].seconds() + seconds_from(
            tasks,
            m.index + 2,
        ));
    } else {
        assert(seconds_from(tasks, m.index + 1) == 0);
    }
}

/// A running engine keeps running for exactly `ticks_left` ticks of its
/// loop: it is running after fewer, and after that many it is stopped and
/// parked at the end of the last task. The session stays the same
/// throughout.
pub proof fn law_runs_until_done(m: TimerModel, h: LoopHandle, k: nat)
    requires
        m.wf(),
        m.driven_by(h),
        k <= ticks_left(m),
    ensures
        run(m, h, k).wf(),
        run(m, h, k).session == m.session,
        ticks_left(run(m, h, k)) + k == ticks_left(m),
        k < ticks_left(m) ==> run(m, h, k).driven_by(h),
        k == ticks_left(m) ==> !run(m, h, k).running && parked(run(m, h, k)),
    decreases k,
{
    if k > 0 {
        law_tick_progress(m, h);
        let next = m.tick(h);
        if next.running {
            law_runs_until_done(next, h, (k - 1) as nat);
        }
    }
}

/// Over the whole run of a running engine, the countdown events are as many
/// as the seconds left, the task changes are one fewer than the boundaries
/// left, and exactly one event ends the session.
pub proof fn law_events_of_run(m: TimerModel, h: LoopHandle)
    requires
        m.wf(),
        m.driven_by(h),
    ensures
        emitted(m, h, ticks_left(m), |e: EventView| is_update(e)) == countdown_left(m),
        emitted(m, h, ticks_left(m), |e: EventView| is_task_changed(e)) + 1 == transitions_left(m),
        emitted(m, h, ticks_left(m), |e: EventView| is_session_finished(e)) == 1,
    decreases ticks_left(m),
{
    law_tick_progress(m, h);
    let next = m.tick(h);
    let n = ticks_left(m);
    let updates = |e: EventView| is_update(e);
    let changes = |e: EventView| is_task_changed(e);
    let finishes = |e: EventView| is_session_finished(e);
    if next.running {
        law_events_of_run(next, h);
    }
    assert(emitted(m, h, n, updates) == (if m.tick_event(h) matches Some(e) && updates(e) {
        1nat
    } else {
        0nat
    }) + emitted(next, h, (n - 1) as nat, updates));
    assert(emitted(m, h, n, changes) == (if m.tick_event(h) matches Some(e) && changes(e) {
        1nat
    } else {
        0nat
    }) + emitted(next, h, (n - 1) as nat, changes));
    assert(emitted(m, h, n, finishes) == (if m.tick_event(h) matches Some(e) && finishes(e) {
        1nat
    } else {
        0nat
    }) + emitted(next, h, (n - 1) as nat, finishes));
}

/// A session that is loaded and started runs to its end by itself. With
/// `N` tasks that last `S` seconds in all, the loop counts down `S` times
/// and crosses `N` boundaries, an empty session having the one boundary that
/// ends it: the timer runs through the first `S + N - 1` ticks, and the tick
/// after them ends the session and stops the timer. It then rests on the
/// last task with nothing left to count, the session still loaded.
pub proof fn law_session_runs_to_completion(m: TimerModel, session: SessionView)
    ensures
        ({
            let started = m.load(session).start();
            let h = LoopHandle { id: m.next_handle };
            let seconds = session.total_seconds();
            let boundaries: nat = if session.tasks.len() == 0 {
                1
            } else {
                session.tasks.len()
            };
            &&& m.load(session).start_outcome() == StartOutcome::Spawn { handle: h, cancelled: None }
            &&& started.driven_by(h)
            &&& ticks_left(started) == seconds + boundaries
            &&& forall|k: nat| k < seconds + boundaries ==> (#[trigger] run(started, h, k)).running
            &&& !run(started, h, seconds + boundaries).running
            &&& run(started, h, seconds + boundaries).session == Some(session)
            &&& run(started, h, seconds + boundaries).remaining == 0
            &&& session.tasks.len() > 0 ==> run(started, h, seconds + boundaries).index
                == session.tasks.len() - 1
            &&& session.tasks.len() == 0 ==> run(started, h, seconds + boundaries).index == 0
            &&& emitted(started, h, seconds + boundaries, |e: EventView| is_update(e)) == seconds
            &&& emitted(started, h, seconds + boundaries, |e: EventView| is_task_changed(e)) + 1
                == boundaries
            &&& emitted(started, h, seconds + boundaries, |e: EventView| is_session_finished(e))
                == 1
        }),
{
    let started = m.load(session).start();
    let h = LoopHandle { id: m.next_handle };
    let total = ticks_left(started);
    if session.tasks.len() > 0 {
        assert(seconds_from(session.tasks, 0) == session.tasks[0].seconds() + seconds_from(
            session.tasks,
            1,
        ));
    } else {
        assert(seconds_from(session.tasks, 1) == 0);
        assert(seconds_from(session.tasks, 0) == 0);
    }
    assert forall|k: nat| k < total implies (#[trigger] run(started, h, k)).running by {
        law_runs_until_done(started, h, k);
    }
    law_runs_until_done(started, h, total);
    law_events_of_run(started, h);
}

/// After `pause` the timer is stopped and stays as it is, whatever loops
/// still tick: the snapshot taken then says that it is not running.
pub proof fn law_pause_stops(m: TimerModel, pending: Seq<LoopHandle>)
    ensures
        !m.pause().running,
        m.pause().status() matches Some(u) ==> !u.is_running,
        after_ticks(m.pause(), pending) == m.pause(),
        after_ticks(m.pause(), pending).status() matches Some(u) ==> !u.is_running,
    decreases pending.len(),
{
    if pending.len() > 0 {
        law_pause_stops(m, pending.subrange(1, pending.len() as int));
    }
}

/// Loading a session resets the countdown to the whole of the new first
/// task, and no loop can touch the new state: not while it is stopped,
/// whatever ticks, and not the loop of the run before once the timer has
/// been started again.
pub proof fn law_load_resets(
    m: TimerModel,
    old_loop: LoopHandle,
    session: SessionView,
    pending: Seq<LoopHandle>,
)
    requires
        m.wf(),
        m.driven_by(old_loop),
    ensures
        m.load(session).index == 0,
        session.tasks.len() > 0 ==> m.load(session).remaining == session.tasks[0].seconds(),
        session.tasks.len() == 0 ==> m.load(session).remaining == 0,
        !m.load(session).running,
        after_ticks(m.load(session), pending) == m.load(session),
        m.load(session).start().tick(old_loop) == m.load(session).start(),
        m.load(session).start().tick_event(old_loop) is None,
    decreases pending.len(),
{
    if pending.len() > 0 {
        law_load_resets(m, old_loop, session, pending.subrange(1, pending.len() as int));
    }
}

/// `start` twice is `start` once: the second call changes nothing and asks
/// for nothing. The same holds of `pause`.
pub proof fn law_start_pause_idempotent(m: TimerModel)
    ensures
        m.start().start() == m.start(),
        m.start().start_outcome() == StartOutcome::Ignored,
        m.pause().pause() == m.pause(),
        m.pause().handle is None,
{
}

} // verus!
