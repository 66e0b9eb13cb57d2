//! The timer as a mathematical state machine.
use crate::events::{EventView, TimerUpdateView};
use crate::models::{SessionView, TaskView};
use vstd::prelude::*;

verus! {

/// The pause between two ticks of the loop that drives the timer.
pub const TICK_INTERVAL_SECONDS: u64 = 1;

/// Names one background tick loop. The engine hands a fresh handle to each
/// loop it asks for, and listens only to the loop whose handle it holds.
#[derive(Debug, Clone, Copy, PartialEq, Eq, Hash, Structural)]
pub struct LoopHandle {
    pub id: u64,
}

/// The identifier that is issued after `id`.
pub open spec fn next_id(id: u64) -> u64 {
    if id == u64::MAX {
        0
    } else {
        (id + 1) as u64
    }
}

/// What `start` asks of the caller.
#[derive(Debug, Clone, Copy, PartialEq, Eq)]
pub enum StartOutcome {
    /// Nothing happened: the timer was running already, or no session is
    /// loaded.
    Ignored,
    /// A tick loop is to be spawned under `handle`, after the loop named by
    /// `cancelled`, if any, has been cancelled.
    Spawn { handle: LoopHandle, cancelled: Option<LoopHandle> },
}

/// The state of the timer engine.
pub struct TimerModel {
    pub session: Option<SessionView>,
    pub index: nat,
    pub remaining: nat,
    pub running: bool,
    pub handle: Option<LoopHandle>,
    pub next_handle: u64,
}

impl TimerModel {
    /// The tasks of the loaded session; none while nothing is loaded.
    pub open spec fn tasks(self) -> Seq<TaskView> {
        match self.session {
            Some(s) => s.tasks,
            None => Seq::empty(),
        }
    }

    /// The engine's invariant. The index names a task unless there is none;
    /// the countdown stays within the current task; a running timer has a
    /// session and a live loop; the handle in use will not be issued next.
    pub open spec fn wf(self) -> bool {
        &&& self.tasks().len() == 0 ==> self.index == 0 && self.remaining == 0
        &&& self.tasks().len() > 0 ==> self.index < self.tasks().len() && self.remaining
            <= self.tasks()[self.index as int].seconds()
        &&& self.running ==> self.session is Some && self.handle is Some
        &&& self.handle matches Some(h) ==> h.id != self.next_handle
    }

    /// The engine before any session is loaded.
    pub open spec fn initial() -> TimerModel {
        TimerModel {
            session: None,
            index: 0,
            remaining: 0,
            running: false,
            handle: None,
            next_handle: 0,
        }
    }

    /// The snapshot shown to the front end: none while no session is loaded
    /// or while the index names no task.
    pub open spec fn status(self) -> Option<TimerUpdateView> {
        match self.session {
            Some(s) => if self.index < s.tasks.len() {
                Some(
                    TimerUpdateView {
                        remaining_seconds: self.remaining,
                        current_task_index: self.index,
                        is_running: self.running,
                        current_task_name: s.tasks[self.index as int].name,
                        is_break: s.tasks[self.index as int].is_break(),
                        session_id: s.id,
                    },
                )
            } else {
                None
            },
            None => None,
        }
    }

    /// The engine after `session` has been loaded: a hard reset to the start
    /// of the first task, stopped, with no loop.
    pub open spec fn load(self, session: SessionView) -> TimerModel {
        TimerModel {
            session: Some(session),
            index: 0,
            remaining: if session.tasks.len() > 0 {
                session.tasks[0].seconds()
            } else {
                0
            },
            running: false,
            handle: None,
            next_handle: self.next_handle,
        }
    }

    /// Whether `start` has an effect.
    pub open spec fn can_start(self) -> bool {
        !self.running && self.session is Some
    }

    /// The engine after `start`.
    pub open spec fn start(self) -> TimerModel {
        if self.can_start() {
            TimerModel {
                running: true,
                handle: Some(LoopHandle { id: self.next_handle }),
                next_handle: next_id(self.next_handle),
                ..self
            }
        } else {
            self
        }
    }

    /// What `start` asks of the caller.
    pub open spec fn start_outcome(self) -> StartOutcome {
        if self.can_start() {
            StartOutcome::Spawn {
                handle: LoopHandle { id: self.next_handle },
                cancelled: self.handle,
            }
        } else {
            StartOutcome::Ignored
        }
    }

    /// The engine after `pause`.
    pub open spec fn pause(self) -> TimerModel {
        TimerModel { running: false, handle: None, ..self }
    }

    /// Whether the loop named `h` is the one that drives the timer.
    pub open spec fn driven_by(self, h: LoopHandle) -> bool {
        self.running && self.handle == Some(h)
    }

    /// Whether a task follows the current one.
    pub open spec fn has_next_task(self) -> bool {
        self.index + 1 < self.tasks().len()
    }

    /// The engine after one tick of the loop that drives it.
    pub open spec fn step(self) -> TimerModel {
        if self.remaining > 0 {
            TimerModel { remaining: (self.remaining - 1) as nat, ..self }
        } else if self.has_next_task() {
            TimerModel {
                index: self.index + 1,
                remaining: self.tasks()[self.index as int + 1].seconds(),
                ..self
            }
        } else {
            TimerModel { running: false, ..self }
        }
    }

    /// The event of one tick of the loop that drives the engine.
    pub open spec fn step_event(self) -> EventView {
        if self.remaining > 0 {
            EventView::TimerUpdate(
                TimerUpdateView {
                    remaining_seconds: (self.remaining - 1) as nat,
                    current_task_index: self.index,
                    is_running: true,
                    current_task_name: self.tasks()[self.index as int].name,
                    is_break: self.tasks()[self.index as int].is_break(),
                    session_id: self.session->Some_0.id,
                },
            )
        } else if self.has_next_task() {
            EventView::TaskChanged(self.tasks()[self.index as int + 1].name)
        } else {
            EventView::SessionFinished
        }
    }

    /// The engine after the loop named `h` has ticked. A loop that does not
    /// drive the engine changes nothing.
    pub open spec fn tick(self, h: LoopHandle) -> TimerModel {
        if self.driven_by(h) {
            self.step()
        } else {
            self
        }
    }

    /// What the loop named `h` is told on its tick: the event to emit, or
    /// nothing, which ends a loop that does not drive the engine.
    pub open spec fn tick_event(self, h: LoopHandle) -> Option<EventView> {
        if self.driven_by(h) {
            Some(self.step_event())
        } else {
            None
        }
    }
}

} // verus!
