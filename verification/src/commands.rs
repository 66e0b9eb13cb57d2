//! The commands of the front end, one function each.
use crate::activity::{ActivityManager, ActivityState};
use crate::audio::{AudioCommandView, AudioManager, Volume, CLOSED_MESSAGE};
use crate::events::{snapshot_of, TimerUpdate};
use crate::models::Session;
use crate::timer::TimerManager;
use crate::timer_model::{LoopHandle, StartOutcome};
use vstd::prelude::*;

verus! {

/// Starts the countdown; see [`TimerManager::start`].
pub fn start_timer(state: &mut TimerManager) -> (outcome: StartOutcome)
    ensures
        final(state)@ == old(state)@.start(),
        outcome == old(state)@.start_outcome(),
{
    state.start()
}

/// Stops the countdown; see [`TimerManager::pause`].
pub fn pause_timer(state: &mut TimerManager) -> (cancelled: Option<LoopHandle>)
    ensures
        final(state)@ == old(state)@.pause(),
        cancelled == old(state)@.handle,
{
    state.pause()
}

/// Loads `session`; see [`TimerManager::load_session`].
pub fn load_session(session: Session, state: &mut TimerManager) -> (cancelled: Option<LoopHandle>)
    ensures
        final(state)@ == old(state)@.load(session@),
        cancelled == old(state)@.handle,
{
    state.load_session(session)
}

/// The timer's snapshot; see [`TimerManager::get_status`].
pub fn get_timer_status(state: &TimerManager) -> (status: Option<TimerUpdate>)
    ensures
        snapshot_of(status) == state@.status(),
{
    state.get_status()
}

/// Switches the activity monitor on or off and sets its threshold. The
/// latch of the current idle episode is left as it is.
pub fn set_activity_monitoring(enabled: bool, threshold: u64, state: &mut ActivityManager)
    ensures
        final(state).state == (ActivityState {
            is_enabled: enabled,
            threshold_seconds: threshold,
            notified: old(state).state.notified,
        }),
{
    state.set_enabled(enabled);
    state.set_threshold(threshold);
}

/// Queues the playing of a file; see [`AudioManager::play`].
pub fn play_music(file_path: String, loop_enabled: bool, state: &mut AudioManager) -> (queued:
    Result<(), String>)
    ensures
        final(state)@ == old(state)@.submit(AudioCommandView::Play(file_path@, loop_enabled)),
        queued is Ok <==> old(state)@.connected,
        queued matches Err(message) ==> message@ == CLOSED_MESSAGE@,
{
    state.play(file_path, loop_enabled)
}

/// Queues a pause or a resume of the track.
pub fn pause_music(state: &mut AudioManager)
    ensures
        final(state)@ == old(state)@.submit(AudioCommandView::Pause),
{
    state.pause()
}

/// Queues the stop of the track.
pub fn stop_music(state: &mut AudioManager)
    ensures
        final(state)@ == old(state)@.submit(AudioCommandView::Stop),
{
    state.stop()
}

/// Queues a change of the gain.
pub fn set_volume(volume: Volume, state: &mut AudioManager)
    ensures
        final(state)@ == old(state)@.submit(AudioCommandView::SetVolume(volume)),
{
    state.set_volume(volume)
}

/// Whether the window is to stay open when the user asks to close it: it
/// is while the timer shows a task and runs.
pub fn keeps_window_open(state: &TimerManager) -> (keep: bool)
    ensures
        keep == (state@.status() matches Some(u) && u.is_running),
{
    match state.get_status() {
        Some(status) => status.is_running,
        None => false,
    }
}

} // verus!
