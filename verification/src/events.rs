//! What the engine tells the outside world.
use vstd::prelude::*;

verus! {

/// A snapshot of the timer, as shown to the front end.
#[derive(Debug, Clone, PartialEq, Eq)]
pub struct TimerUpdate {
    pub remaining_seconds: u64,
    pub current_task_index: usize,
    pub is_running: bool,
    pub current_task_name: String,
    pub is_break: bool,
    pub session_id: String,
}

/// The mathematical content of a [`TimerUpdate`].
pub struct TimerUpdateView {
    pub remaining_seconds: nat,
    pub current_task_index: nat,
    pub is_running: bool,
    pub current_task_name: Seq<char>,
    pub is_break: bool,
    pub session_id: Seq<char>,
}

impl View for TimerUpdate {
    type V = TimerUpdateView;

    open spec fn view(&self) -> TimerUpdateView {
        TimerUpdateView {
            remaining_seconds: self.remaining_seconds as nat,
            current_task_index: self.current_task_index as nat,
            is_running: self.is_running,
            current_task_name: self.current_task_name@,
            is_break: self.is_break,
            session_id: self.session_id@,
        }
    }
}

/// The view of a snapshot that may be absent.
pub open spec fn snapshot_of(update: Option<TimerUpdate>) -> Option<TimerUpdateView> {
    match update {
        Some(u) => Some(u@),
        None => None,
    }
}

/// An event for the event sink: one variant per event name.
#[derive(Debug, Clone, PartialEq, Eq)]
pub enum Event {
    /// One second of the current task has passed.
    TimerUpdate(TimerUpdate),
    /// The next task has begun; carries its name.
    TaskChanged(String),
    /// The last task has run out.
    SessionFinished,
    /// The user has been idle for the configured time.
    ActivityWarning,
}

/// The mathematical content of an [`Event`].
pub enum EventView {
    TimerUpdate(TimerUpdateView),
    TaskChanged(Seq<char>),
    SessionFinished,
    ActivityWarning,
}

impl EventView {
    /// The name under which the event is emitted.
    pub open spec fn name(self) -> Seq<char> {
        match self {
            EventView::TimerUpdate(_) => "timer-update"@,
            EventView::TaskChanged(_) => "task-changed"@,
            EventView::SessionFinished => "session-finished"@,
            EventView::ActivityWarning => "activity-warning"@,
        }
    }

    /// Whether a notification banner is requested along with the event.
    pub open spec fn requests_notification(self) -> bool {
        !(self is TimerUpdate)
    }

    /// Whether the cue sound is requested along with the event.
    pub open spec fn requests_cue(self) -> bool {
        self is TaskChanged || self is SessionFinished
    }

    /// Whether the tick loop that is told this event ends with it.
    pub open spec fn ends_run(self) -> bool {
        self is SessionFinished
    }
}

impl View for Event {
    type V = EventView;

    open spec fn view(&self) -> EventView {
        match self {
            Event::TimerUpdate(u) => EventView::TimerUpdate(u@),
            Event::TaskChanged(name) => EventView::TaskChanged(name@),
            Event::SessionFinished => EventView::SessionFinished,
            Event::ActivityWarning => EventView::ActivityWarning,
        }
    }
}

/// The view of an event that may be absent.
pub open spec fn view_of(event: Option<Event>) -> Option<EventView> {
    match event {
        Some(e) => Some(e@),
        None => None,
    }
}

impl Event {
    /// The name under which the event is emitted.
    pub fn name(&self) -> (name: &'static str)
        ensures
            name@ == self@.name(),
    {
        match self {
            Event::TimerUpdate(_) => "timer-update",
            Event::TaskChanged(_) => "task-changed",
            Event::SessionFinished => "session-finished",
            Event::ActivityWarning => "activity-warning",
        }
    }

    /// Whether a notification banner is requested along with the event.
    pub fn requests_notification(&self) -> (b: bool)
        ensures
            b == self@.requests_notification(),
    {
        match self {
            Event::TimerUpdate(_) => false,
            _ => true,
        }
    }

    /// Whether the tick loop that is told this event ends with it: the end
    /// of the session ends the loop, every other event lets it go on.
    pub fn ends_run(&self) -> (b: bool)
        ensures
            b == self@.ends_run(),
    {
        match self {
            Event::SessionFinished => true,
            _ => false,
        }
    }

    /// Whether the cue sound is requested along with the event.
    pub fn requests_cue(&self) -> (b: bool)
        ensures
            b == self@.requests_cue(),
    {
        match self {
            Event::TaskChanged(_) => true,
            Event::SessionFinished => true,
            _ => false,
        }
    }
}

} // verus!
