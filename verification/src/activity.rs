//! The activity monitor: one warning for each episode of idleness.
use crate::events::{view_of, Event, EventView};
use vstd::prelude::*;

verus! {

/// The idle time after which a warning is due, until it is configured.
pub const DEFAULT_THRESHOLD_SECONDS: u64 = 300;

/// The pause between two polls of the idle time.
pub const POLL_INTERVAL_SECONDS: u64 = 5;

/// The monitor's data. `notified` is the latch of the current idle episode:
/// set by the warning, cleared by the first sample below the threshold.
#[derive(Debug, Clone, Copy, PartialEq, Eq, Structural)]
pub struct ActivityState {
    pub is_enabled: bool,
    pub threshold_seconds: u64,
    pub notified: bool,
}

impl ActivityState {
    /// The monitor as it is created: switched off, not yet warned.
    pub open spec fn initial() -> ActivityState {
        ActivityState {
            is_enabled: false,
            threshold_seconds: DEFAULT_THRESHOLD_SECONDS,
            notified: false,
        }
    }

    /// Whether a poll that finds `sample` warns. A sample is missing when the
    /// idle time could not be read.
    pub open spec fn warns(self, sample: Option<u64>) -> bool {
        &&& self.is_enabled
        &&& !self.notified
        &&& sample matches Some(idle)
        &&& idle >= self.threshold_seconds
    }

    /// The monitor after a poll that finds `sample`. Switched off, or
    /// without a sample, it stays as it is.
    pub open spec fn observe(self, sample: Option<u64>) -> ActivityState {
        match sample {
            Some(idle) => if !self.is_enabled {
                self
            } else if idle >= self.threshold_seconds {
                ActivityState { notified: true, ..self }
            } else {
                ActivityState { notified: false, ..self }
            },
            None => self,
        }
    }

    /// The event of a poll that finds `sample`.
    pub open spec fn event(self, sample: Option<u64>) -> Option<EventView> {
        if self.warns(sample) {
            Some(EventView::ActivityWarning)
        } else {
            None
        }
    }
}

/// The activity monitor. The program around it reads the idle time at a
/// fixed pace, while the monitor is switched on, and hands it to `observe`.
pub struct ActivityManager {
    pub state: ActivityState,
}

impl ActivityManager {
    /// A monitor that is switched off, with the default threshold.
    pub fn new() -> (manager: Self)
        ensures
            manager.state == ActivityState::initial(),
    {
        ActivityManager {
            state: ActivityState {
                is_enabled: false,
                threshold_seconds: DEFAULT_THRESHOLD_SECONDS,
                notified: false,
            },
        }
    }

    /// Whether the idle time is to be read at the next poll: it is while the
    /// monitor is switched on. A monitor that is switched off reads nothing.
    pub fn is_monitoring(&self) -> (reads: bool)
        ensures
            reads == self.state.is_enabled,
    {
        self.state.is_enabled
    }

    /// Switches the monitor on or off.
    pub fn set_enabled(&mut self, enabled: bool)
        ensures
            final(self).state == (ActivityState { is_enabled: enabled, ..old(self).state }),
    {
        self.state.is_enabled = enabled;
    }

    /// Sets the idle time after which a warning is due. Any value is taken.
    pub fn set_threshold(&mut self, seconds: u64)
        ensures
            final(self).state == (ActivityState { threshold_seconds: seconds, ..old(self).state }),
    {
        self.state.threshold_seconds = seconds;
    }

    /// The decision of one poll, given the idle time that was read, or
    /// `None` where it could not be read. Returns the warning when one is
    /// due.
    pub fn observe(&mut self, sample: Option<u64>) -> (event: Option<Event>)
        ensures
            final(self).state == old(self).state.observe(sample),
            view_of(event) == old(self).state.event(sample),
    {
        if !self.state.is_enabled {
            return None;
        }
        match sample {
            Some(idle_seconds) => {
                if idle_seconds >= self.state.threshold_seconds {
                    if !self.state.notified {
                        self.state.notified = true;
                        Some(Event::ActivityWarning)
                    } else {
                        None
                    }
                } else {
                    if self.state.notified {
                        self.state.notified = false;
                    }
                    None
                }
            },
            None => None,
        }
    }
}

/// The monitor after one poll for each sample of `samples`, in order.
pub open spec fn observe_all(s: ActivityState, samples: Seq<Option<u64>>) -> ActivityState
    decreases samples.len(),
{
    if samples.len() == 0 {
        s
    } else {
        observe_all(s.observe(samples.first()), samples.drop_first())
    }
}

/// The number of warnings that the polls of `samples` raise.
pub open spec fn warnings(s: ActivityState, samples: Seq<Option<u64>>) -> nat
    decreases samples.len(),
{
    if samples.len() == 0 {
        0
    } else {
        let here: nat = if s.warns(samples.first()) {
            1
        } else {
            0
        };
        here + warnings(s.observe(samples.first()), samples.drop_first())
    }
}

/// Holds when no sample of `samples` is below `threshold`: the polls fall
/// into one idle episode.
pub open spec fn idle_episode(threshold: u64, samples: Seq<Option<u64>>) -> bool {
    forall|i: int|
        0 <= i < samples.len() ==> (#[trigger] samples[i] matches Some(idle) ==> idle >= threshold)
}

/// Holds when the idle time was read at least once.
pub open spec fn sampled(samples: Seq<Option<u64>>) -> bool {
    exists|i: int| 0 <= i < samples.len() && #[trigger] samples[i] is Some
}

/// Within one idle episode the monitor warns once at most. It warns once
/// exactly when it is switched on, has not warned of this episode yet, and
/// reads the idle time at least once; after that the latch is set, and a
/// latch that is set stays set to the end of the episode.
pub proof fn law_one_warning_per_episode(s: ActivityState, samples: Seq<Option<u64>>)
    requires
        idle_episode(s.threshold_seconds, samples),
    ensures
        warnings(s, samples) <= 1,
        warnings(s, samples) == 1 <==> s.is_enabled && !s.notified && sampled(samples),
        s.is_enabled && sampled(samples) ==> observe_all(s, samples).notified,
        s.notified ==> observe_all(s, samples).notified,
        observe_all(s, samples).is_enabled == s.is_enabled,
        observe_all(s, samples).threshold_seconds == s.threshold_seconds,
    decreases samples.len(),
{
    if samples.len() > 0 {
        let rest = samples.drop_first();
        let next = s.observe(samples.first());
        assert forall|i: int| 0 <= i < rest.len() implies (#[trigger] rest[i] matches Some(idle)
            ==> idle >= next.threshold_seconds) by {
            assert(rest[i] == samples[i + 1]);
        }
        law_one_warning_per_episode(next, rest);
        if sampled(rest) {
            let i = choose|i: int| 0 <= i < rest.len() && #[trigger] rest[i] is Some;
            assert(samples[i + 1] is Some);
        }
        if sampled(samples) && samples.first() is None {
            let i = choose|i: int| 0 <= i < samples.len() && #[trigger] samples[i] is Some;
            assert(rest[i - 1] is Some);
        }
        if samples.first() is Some {
            assert(samples[0] is Some);
        }
    }
}

/// The first sample below the threshold ends the episode: the latch is
/// cleared without an event, and the next sample at or above the threshold
/// warns again.
pub proof fn law_episode_ends(s: ActivityState, below: u64, above: u64)
    requires
        s.is_enabled,
        below < s.threshold_seconds,
        above >= s.threshold_seconds,
    ensures
        !s.warns(Some(below)),
        !s.observe(Some(below)).notified,
        s.observe(Some(below)).warns(Some(above)),
{
}

} // verus!
