//! The timer engine: the session state and the operations on it.
use crate::events::{snapshot_of, view_of, Event, TimerUpdate, TimerUpdateView};
use crate::models::{Session, SessionView};
use crate::timer_model::{LoopHandle, StartOutcome, TimerModel};
use vstd::prelude::*;

verus! {

/// The data of the timer: the loaded session, the place in it, and the loop
/// that counts it down.
#[derive(Debug, Clone)]
pub struct TimerState {
    pub session: Option<Session>,
    pub current_task_index: usize,
    pub remaining_seconds: u64,
    pub is_running: bool,
    pub handle: Option<LoopHandle>,
}

impl TimerState {
    /// The content of the loaded session, if one is loaded.
    pub open spec fn session_view(&self) -> Option<SessionView> {
        match self.session {
            Some(s) => Some(s@),
            None => None,
        }
    }

    /// The engine state that these data and the next handle to issue make.
    pub open spec fn model(&self, next_handle: u64) -> TimerModel {
        TimerModel {
            session: self.session_view(),
            index: self.current_task_index as nat,
            remaining: self.remaining_seconds as nat,
            running: self.is_running,
            handle: self.handle,
            next_handle,
        }
    }

    /// The snapshot that these data show. It does not depend on the handle
    /// that is issued next.
    pub open spec fn snapshot(&self) -> Option<TimerUpdateView> {
        self.model(0).status()
    }

    /// The snapshot for the front end. It is `None` while no session is
    /// loaded and whenever the index names no task, whatever the fields hold.
    pub fn status(&self) -> (status: Option<TimerUpdate>)
        ensures
            snapshot_of(status) == self.snapshot(),
    {
        match &self.session {
            Some(session) => {
                if self.current_task_index < session.tasks.len() {
                    let current_task = &session.tasks[self.current_task_index];
                    Some(
                        TimerUpdate {
                            remaining_seconds: self.remaining_seconds,
                            current_task_index: self.current_task_index,
                            is_running: self.is_running,
                            current_task_name: current_task.name.clone(),
                            is_break: current_task.is_break(),
                            session_id: session.id.clone(),
                        },
                    )
                } else {
                    None
                }
            },
            None => None,
        }
    }
}

/// The timer engine. It owns the session state; the program around it
/// serialises the calls and runs the tick loop that the engine asks for.
pub struct TimerManager {
    state: TimerState,
    next_handle: u64,
}

impl View for TimerManager {
    type V = TimerModel;

    closed spec fn view(&self) -> TimerModel {
        self.state.model(self.next_handle)
    }
}

impl TimerManager {
    #[verifier::type_invariant]
    spec fn well_formed(&self) -> bool {
        self@.wf()
    }

    /// An engine with no session.
    pub fn new() -> (manager: Self)
        ensures
            manager@ == TimerModel::initial(),
    {
        TimerManager {
            state: TimerState {
                session: None,
                current_task_index: 0,
                remaining_seconds: 0,
                is_running: false,
                handle: None,
            },
            next_handle: 0,
        }
    }

    /// The session state, to read.
    pub fn state(&self) -> (state: &TimerState)
        ensures
            state.model(self@.next_handle) == self@,
            self@.wf(),
    {
        proof {
            use_type_invariant(self);
        }
        &self.state
    }

    /// Replaces the session and resets the timer to the start of its first
    /// task, stopped. Returns the handle of the loop to cancel, if there was
    /// one.
    pub fn load_session(&mut self, session: Session) -> (cancelled: Option<LoopHandle>)
        ensures
            final(self)@ == old(self)@.load(session@),
            cancelled == old(self)@.handle,
            final(self)@.wf(),
    {
        let cancelled = self.state.handle;
        let remaining_seconds = if session.tasks.len() > 0 {
            session.tasks[0].duration_seconds()
        } else {
            0
        };
        self.state = TimerState {
            session: Some(session),
            current_task_index: 0,
            remaining_seconds,
            is_running: false,
            handle: None,
        };
        cancelled
    }

    /// Starts the countdown unless it is running already or no session is
    /// loaded, in which case nothing changes.
    pub fn start(&mut self) -> (outcome: StartOutcome)
        ensures
            final(self)@ == old(self)@.start(),
            outcome == old(self)@.start_outcome(),
            final(self)@.wf(),
    {
        proof {
            use_type_invariant(&*self);
        }
        if self.state.is_running || self.state.session.is_none() {
            return StartOutcome::Ignored;
        }
        let cancelled = self.state.handle;
        let handle = LoopHandle { id: self.next_handle };
        self.state.handle = None;
        self.next_handle = self.next_handle.wrapping_add(1);
        self.state.handle = Some(handle);
        self.state.is_running = true;
        StartOutcome::Spawn { handle, cancelled }
    }

    /// Stops the countdown. Returns the handle of the loop to cancel, if
    /// there was one.
    pub fn pause(&mut self) -> (cancelled: Option<LoopHandle>)
        ensures
            final(self)@ == old(self)@.pause(),
            cancelled == old(self)@.handle,
            final(self)@.wf(),
    {
        proof {
            use_type_invariant(&*self);
        }
        let cancelled = self.state.handle;
        self.state.is_running = false;
        self.state.handle = None;
        cancelled
    }

    /// The snapshot for the front end, or `None` while there is nothing to
    /// show.
    pub fn get_status(&self) -> (status: Option<TimerUpdate>)
        ensures
            snapshot_of(status) == self@.status(),
    {
        self.state.status()
    }

    /// One tick of the loop named `handle`. The loop that drives the engine
    /// gets the event to emit; it ends after `SessionFinished`. Any other
    /// loop gets `None`, changes nothing, and ends.
    pub fn tick(&mut self, handle: LoopHandle) -> (event: Option<Event>)
        ensures
            final(self)@ == old(self)@.tick(handle),
            view_of(event) == old(self)@.tick_event(handle),
            final(self)@.wf(),
    {
        proof {
            use_type_invariant(&*self);
        }
        if !self.state.is_running {
            return None;
        }
        match self.state.handle {
            Some(h) => {
                if h != handle {
                    return None;
                }
            },
            None => {
                return None;
            },
        }
        if self.state.remaining_seconds > 0 {
            self.state.remaining_seconds -= 1;
            let update = self.state.status();
            match update {
                Some(u) => Some(Event::TimerUpdate(u)),
                None => None,
            }
        } else {
            let next = match &self.state.session {
                Some(session) => {
                    let count = session.tasks.len();
                    assert(self@.tasks().len() == count);
                    let next_index = self.state.current_task_index + 1;
                    if next_index < count {
                        let task = &session.tasks[next_index];
                        Some((next_index, task.name.clone(), task.duration_seconds()))
                    } else {
                        None
                    }
                },
                None => None,
            };
            match next {
                Some((next_index, name, seconds)) => {
                    self.state.current_task_index = next_index;
                    self.state.remaining_seconds = seconds;
                    Some(Event::TaskChanged(name))
                },
                None => {
                    self.state.is_running = false;
                    Some(Event::SessionFinished)
                },
            }
        }
    }
}

} // verus!
