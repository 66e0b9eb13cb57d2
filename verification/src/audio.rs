//! Audio: the queue of playback commands and the decisions of the worker
//! that consumes it. The worker alone touches the output device; what it is
//! to do there is handed out as an [`AudioAction`].
use std::collections::VecDeque;
use vstd::prelude::*;

verus! {

/// The bits of the gain that a track plays at until one is set: one half.
pub const DEFAULT_VOLUME_BITS: u32 = 0x3F00_0000;

/// The bits of the gain of every cue: four fifths, louder than the default
/// and not touched by `SetVolume`.
pub const CUE_VOLUME_BITS: u32 = 0x3F4C_CCCD;

/// The pitch of the lower tone of the synthesized cue, in hertz.
pub const CUE_LOW_HZ: u32 = 880;

/// The pitch of the higher tone of the synthesized cue, in hertz.
pub const CUE_HIGH_HZ: u32 = 1760;

/// The length of both tones of the synthesized cue, in milliseconds.
pub const CUE_TONE_MS: u32 = 200;

/// The bits of the amplitude of the lower tone: one half.
pub const CUE_LOW_AMPLITUDE_BITS: u32 = 0x3F00_0000;

/// The bits of the amplitude of the higher tone: three tenths.
pub const CUE_HIGH_AMPLITUDE_BITS: u32 = 0x3E99_999A;

/// The directory, below the search base, that holds the packaged assets.
pub const ASSET_DIR: &'static str = "dist";

/// The directory of the sounds, below the asset directory.
pub const CUE_DIR: &'static str = "tone";

/// The file of the cue sound.
pub const CUE_FILE: &'static str = "bell.mp3";

/// The message of a command that could not be queued.
pub const CLOSED_MESSAGE: &'static str = "sending on a closed channel";

/// A gain or an amplitude: the bit pattern of an IEEE-754 single-precision
/// number. The library stores and compares levels; it never computes with
/// them.
#[derive(Debug, Clone, Copy, PartialEq, Eq, Structural)]
pub struct Volume {
    pub bits: u32,
}

/// A command to the audio worker.
#[derive(Debug, Clone, PartialEq, Eq)]
pub enum AudioCommand {
    /// Play the file at the path; loop it if the flag is set.
    Play(String, bool),
    /// Play the cue sound.
    PlayBell,
    /// Pause the track, or resume it if it is paused.
    Pause,
    /// Stop the track.
    Stop,
    /// Set the gain of this track and of the tracks to come.
    SetVolume(Volume),
}

/// The mathematical content of an [`AudioCommand`].
pub enum AudioCommandView {
    Play(Seq<char>, bool),
    PlayBell,
    Pause,
    Stop,
    SetVolume(Volume),
}

impl View for AudioCommand {
    type V = AudioCommandView;

    open spec fn view(&self) -> AudioCommandView {
        match self {
            AudioCommand::Play(path, looping) => AudioCommandView::Play(path@, *looping),
            AudioCommand::PlayBell => AudioCommandView::PlayBell,
            AudioCommand::Pause => AudioCommandView::Pause,
            AudioCommand::Stop => AudioCommandView::Stop,
            AudioCommand::SetVolume(v) => AudioCommandView::SetVolume(*v),
        }
    }
}

/// The views of the commands of `commands`, in order.
pub open spec fn views_of(commands: Seq<AudioCommand>) -> Seq<AudioCommandView> {
    Seq::new(commands.len(), |i: int| commands[i]@)
}

/// The content of the command queue: what waits, oldest first, and whether
/// a worker still takes commands.
pub struct AudioQueueView {
    pub pending: Seq<AudioCommandView>,
    pub connected: bool,
}

impl AudioQueueView {
    /// The queue after `command` has been submitted: appended behind all
    /// that waits, or dropped where no worker is left.
    pub open spec fn submit(self, command: AudioCommandView) -> AudioQueueView {
        if self.connected {
            AudioQueueView { pending: self.pending.push(command), ..self }
        } else {
            self
        }
    }
}

/// The callers' side of the audio worker: a first-in, first-out queue of
/// commands. Callers append; the worker takes from the front.
pub struct AudioManager {
    queue: VecDeque<AudioCommand>,
    connected: bool,
}

impl View for AudioManager {
    type V = AudioQueueView;

    closed spec fn view(&self) -> AudioQueueView {
        AudioQueueView { pending: views_of(self.queue@), connected: self.connected }
    }
}

impl AudioManager {
    /// An empty queue with a worker to come.
    pub fn new() -> (manager: Self)
        ensures
            manager@.pending.len() == 0,
            manager@.connected,
    {
        AudioManager { queue: VecDeque::new(), connected: true }
    }

    /// Appends `command` where a worker is left, and says whether it did.
    fn submit(&mut self, command: AudioCommand) -> (queued: bool)
        ensures
            final(self)@ == old(self)@.submit(command@),
            queued == old(self)@.connected,
    {
        if self.connected {
            self.queue.push_back(command);
            assert(views_of(self.queue@) =~= views_of(old(self).queue@).push(command@));
            true
        } else {
            false
        }
    }

    /// Queues the playing of the file at `path`. It fails only where the
    /// command cannot be queued because the worker is gone; whether the file
    /// plays is not known here.
    pub fn play(&mut self, path: String, loop_enabled: bool) -> (queued: Result<(), String>)
        ensures
            final(self)@ == old(self)@.submit(AudioCommandView::Play(path@, loop_enabled)),
            queued is Ok <==> old(self)@.connected,
            queued matches Err(message) ==> message@ == CLOSED_MESSAGE@,
    {
        if self.submit(AudioCommand::Play(path, loop_enabled)) {
            Ok(())
        } else {
            Err(CLOSED_MESSAGE.to_owned())
        }
    }

    /// Queues the cue sound.
    pub fn play_bell(&mut self)
        ensures
            final(self)@ == old(self)@.submit(AudioCommandView::PlayBell),
    {
        let _ = self.submit(AudioCommand::PlayBell);
    }

    /// Queues a pause or, of a paused track, a resume.
    pub fn pause(&mut self)
        ensures
            final(self)@ == old(self)@.submit(AudioCommandView::Pause),
    {
        let _ = self.submit(AudioCommand::Pause);
    }

    /// Queues the stop of the track.
    pub fn stop(&mut self)
        ensures
            final(self)@ == old(self)@.submit(AudioCommandView::Stop),
    {
        let _ = self.submit(AudioCommand::Stop);
    }

    /// Queues a change of the gain.
    pub fn set_volume(&mut self, volume: Volume)
        ensures
            final(self)@ == old(self)@.submit(AudioCommandView::SetVolume(volume)),
    {
        let _ = self.submit(AudioCommand::SetVolume(volume));
    }

    /// Whether a command waits.
    pub fn has_pending(&self) -> (waiting: bool)
        ensures
            waiting == (self@.pending.len() > 0),
    {
        self.queue.len() > 0
    }

    /// The worker's side: takes the command that has waited longest, or
    /// `None` where none waits.
    pub fn next_command(&mut self) -> (command: Option<AudioCommand>)
        ensures
            final(self)@.connected == old(self)@.connected,
            old(self)@.pending.len() == 0 ==> command is None && final(self)@ == old(self)@,
            old(self)@.pending.len() > 0 ==> (command matches Some(c) && c@ == old(
                self,
            )@.pending[0]),
            old(self)@.pending.len() > 0 ==> final(self)@.pending == old(self)@.pending.subrange(
                1,
                old(self)@.pending.len() as int,
            ),
    {
        let command = self.queue.pop_front();
        proof {
            if command is Some {
                assert(views_of(self.queue@) =~= views_of(old(self).queue@).subrange(
                    1,
                    old(self).queue@.len() as int,
                ));
            }
        }
        command
    }

    /// The worker's side: the worker is gone. What waits is dropped, and
    /// from now on nothing is queued.
    pub fn close(&mut self)
        ensures
            final(self)@.pending.len() == 0,
            !final(self)@.connected,
    {
        self.queue = VecDeque::new();
        self.connected = false;
    }
}

/// The two states of a track that is loaded.
#[derive(Debug, Clone, Copy, PartialEq, Eq, Structural)]
pub enum SinkState {
    Playing,
    Paused,
}

/// What the worker is to do on the device.
#[derive(Debug, Clone, PartialEq, Eq)]
pub enum AudioAction {
    /// Nothing.
    Idle,
    /// Stop and drop the track if `stop_current` is set. Then open and decode
    /// the file at `path`; if that works, play it in a fresh sink at
    /// `volume`, for ever if `looping` is set. Report the result with
    /// [`AudioWorker::loaded`].
    Load { path: String, looping: bool, stop_current: bool, volume: Volume },
    /// Play the cue in a sink of its own, which nothing stops.
    Cue,
    /// Pause the track.
    PauseSink,
    /// Resume the track.
    ResumeSink,
    /// Stop and drop the track.
    StopSink,
    /// Set the gain of the track.
    SetSinkVolume(Volume),
}

/// The mathematical content of an [`AudioAction`].
pub enum AudioActionView {
    Idle,
    Load { path: Seq<char>, looping: bool, stop_current: bool, volume: Volume },
    Cue,
    PauseSink,
    ResumeSink,
    StopSink,
    SetSinkVolume(Volume),
}

impl View for AudioAction {
    type V = AudioActionView;

    open spec fn view(&self) -> AudioActionView {
        match self {
            AudioAction::Idle => AudioActionView::Idle,
            AudioAction::Load { path, looping, stop_current, volume } => AudioActionView::Load {
                path: path@,
                looping: *looping,
                stop_current: *stop_current,
                volume: *volume,
            },
            AudioAction::Cue => AudioActionView::Cue,
            AudioAction::PauseSink => AudioActionView::PauseSink,
            AudioAction::ResumeSink => AudioActionView::ResumeSink,
            AudioAction::StopSink => AudioActionView::StopSink,
            AudioAction::SetSinkVolume(v) => AudioActionView::SetSinkVolume(*v),
        }
    }
}

/// What the worker knows: whether it has a device, the track if there is
/// one, the gain that was set last, and whether the result of a `Load` is
/// still to come.
#[derive(Debug, Clone, Copy, PartialEq, Eq)]
pub struct AudioWorker {
    pub device_ready: bool,
    pub sink: Option<SinkState>,
    pub volume: Volume,
    pub loading: bool,
}

impl AudioWorker {
    /// The worker's invariant: without a device there is no track and no
    /// load under way, and while a load is under way there is no track.
    pub open spec fn wf(self) -> bool {
        &&& !self.device_ready ==> self.sink is None && !self.loading
        &&& self.loading ==> self.sink is None
    }

    /// The worker as it starts.
    pub open spec fn initial(device_ready: bool) -> AudioWorker {
        AudioWorker {
            device_ready,
            sink: None,
            volume: Volume { bits: DEFAULT_VOLUME_BITS },
            loading: false,
        }
    }

    /// The worker after `command`. Without a device every command is
    /// dropped. The cue leaves the track alone.
    pub open spec fn after(self, command: AudioCommandView) -> AudioWorker {
        if !self.device_ready {
            self
        } else {
            match command {
                AudioCommandView::Play(_, _) => AudioWorker { sink: None, loading: true, ..self },
                AudioCommandView::PlayBell => self,
                AudioCommandView::Pause => match self.sink {
                    Some(SinkState::Playing) => AudioWorker {
                        sink: Some(SinkState::Paused),
                        ..self
                    },
                    Some(SinkState::Paused) => AudioWorker {
                        sink: Some(SinkState::Playing),
                        ..self
                    },
                    None => self,
                },
                AudioCommandView::Stop => AudioWorker { sink: None, ..self },
                AudioCommandView::SetVolume(v) => AudioWorker { volume: v, ..self },
            }
        }
    }

    /// What `command` has the worker do on the device.
    pub open spec fn action(self, command: AudioCommandView) -> AudioActionView {
        if !self.device_ready {
            AudioActionView::Idle
        } else {
            match command {
                AudioCommandView::Play(path, looping) => AudioActionView::Load {
                    path,
                    looping,
                    stop_current: self.sink is Some,
                    volume: self.volume,
                },
                AudioCommandView::PlayBell => AudioActionView::Cue,
                AudioCommandView::Pause => match self.sink {
                    Some(SinkState::Playing) => AudioActionView::PauseSink,
                    Some(SinkState::Paused) => AudioActionView::ResumeSink,
                    None => AudioActionView::Idle,
                },
                AudioCommandView::Stop => if self.sink is Some {
                    AudioActionView::StopSink
                } else {
                    AudioActionView::Idle
                },
                AudioCommandView::SetVolume(v) => if self.sink is Some {
                    AudioActionView::SetSinkVolume(v)
                } else {
                    AudioActionView::Idle
                },
            }
        }
    }

    /// The worker after the result of a `Load`: on success the new track
    /// plays, on failure there is no track. A result that was not asked for
    /// changes nothing.
    pub open spec fn after_load(self, succeeded: bool) -> AudioWorker {
        if self.loading {
            AudioWorker {
                sink: if succeeded {
                    Some(SinkState::Playing)
                } else {
                    None
                },
                loading: false,
                ..self
            }
        } else {
            self
        }
    }

    /// The worker as it starts, with or without a device.
    pub fn new(device_ready: bool) -> (worker: Self)
        ensures
            worker == AudioWorker::initial(device_ready),
            worker.wf(),
    {
        AudioWorker {
            device_ready,
            sink: None,
            volume: Volume { bits: DEFAULT_VOLUME_BITS },
            loading: false,
        }
    }

    /// Takes one command and says what to do on the device.
    pub fn handle(&mut self, command: AudioCommand) -> (action: AudioAction)
        ensures
            *final(self) == old(self).after(command@),
            action@ == old(self).action(command@),
            old(self).wf() ==> final(self).wf(),
    {
        if !self.device_ready {
            return AudioAction::Idle;
        }
        match command {
            AudioCommand::Play(path, looping) => {
                let stop_current = self.sink.is_some();
                self.sink = None;
                self.loading = true;
                AudioAction::Load { path, looping, stop_current, volume: self.volume }
            },
            AudioCommand::PlayBell => AudioAction::Cue,
            AudioCommand::Pause => match self.sink {
                Some(SinkState::Playing) => {
                    self.sink = Some(SinkState::Paused);
                    AudioAction::PauseSink
                },
                Some(SinkState::Paused) => {
                    self.sink = Some(SinkState::Playing);
                    AudioAction::ResumeSink
                },
                None => AudioAction::Idle,
            },
            AudioCommand::Stop => {
                let had_sink = self.sink.is_some();
                self.sink = None;
                if had_sink {
                    AudioAction::StopSink
                } else {
                    AudioAction::Idle
                }
            },
            AudioCommand::SetVolume(volume) => {
                self.volume = volume;
                if self.sink.is_some() {
                    AudioAction::SetSinkVolume(volume)
                } else {
                    AudioAction::Idle
                }
            },
        }
    }

    /// Takes the result of a `Load`.
    pub fn loaded(&mut self, succeeded: bool)
        ensures
            *final(self) == old(self).after_load(succeeded),
            old(self).wf() ==> final(self).wf(),
    {
        if self.loading {
            self.loading = false;
            self.sink = if succeeded {
                Some(SinkState::Playing)
            } else {
                None
            };
        }
    }
}

/// One sine tone of the synthesized cue.
#[derive(Debug, Clone, Copy, PartialEq, Eq, Structural)]
pub struct Tone {
    pub frequency_hz: u32,
    pub duration_ms: u32,
    pub amplitude: Volume,
}

/// How the cue sounds: the packaged sound, or two tones mixed.
#[derive(Debug, Clone, Copy, PartialEq, Eq, Structural)]
pub enum CuePlayback {
    Asset { volume: Volume },
    Beep { low: Tone, high: Tone, volume: Volume },
}

/// The cue as it sounds when the packaged sound is there and decodes, and
/// when it does not.
pub open spec fn cue_for(asset_decoded: bool) -> CuePlayback {
    if asset_decoded {
        CuePlayback::Asset { volume: Volume { bits: CUE_VOLUME_BITS } }
    } else {
        CuePlayback::Beep {
            low: Tone {
                frequency_hz: CUE_LOW_HZ,
                duration_ms: CUE_TONE_MS,
                amplitude: Volume { bits: CUE_LOW_AMPLITUDE_BITS },
            },
            high: Tone {
                frequency_hz: CUE_HIGH_HZ,
                duration_ms: CUE_TONE_MS,
                amplitude: Volume { bits: CUE_HIGH_AMPLITUDE_BITS },
            },
            volume: Volume { bits: CUE_VOLUME_BITS },
        }
    }
}

/// Decides how the cue sounds. There is always a cue: without the packaged
/// sound it is the synthesized beep. Its gain is fixed, whatever was set.
pub fn cue_playback(asset_decoded: bool) -> (cue: CuePlayback)
    ensures
        cue == cue_for(asset_decoded),
        !asset_decoded ==> cue is Beep,
{
    if asset_decoded {
        CuePlayback::Asset { volume: Volume { bits: CUE_VOLUME_BITS } }
    } else {
        CuePlayback::Beep {
            low: Tone {
                frequency_hz: CUE_LOW_HZ,
                duration_ms: CUE_TONE_MS,
                amplitude: Volume { bits: CUE_LOW_AMPLITUDE_BITS },
            },
            high: Tone {
                frequency_hz: CUE_HIGH_HZ,
                duration_ms: CUE_TONE_MS,
                amplitude: Volume { bits: CUE_HIGH_AMPLITUDE_BITS },
            },
            volume: Volume { bits: CUE_VOLUME_BITS },
        }
    }
}

/// The name of the directory that holds the executable inside an
/// application bundle.
pub const BUNDLE_EXECUTABLE_DIR: &'static str = "MacOS";

/// The name of the directory that holds the resources inside an application
/// bundle, beside the one of the executable.
pub const BUNDLE_RESOURCE_DIR: &'static str = "Resources";

/// Where the packaged assets lie, seen from the executable.
#[derive(Debug, Clone, Copy, PartialEq, Eq, Structural)]
pub enum ResourceDir {
    /// In the directory of the executable.
    BesideExecutable,
    /// In the bundle's resource directory, the sibling of the directory of
    /// the executable.
    BundleResources,
}

/// Decides where the packaged assets lie: in the resource directory of the
/// bundle when the executable's directory bears the bundle's name for it,
/// else beside the executable.
pub fn cue_resource_dir(exe_dir_is_bundle: bool) -> (dir: ResourceDir)
    ensures
        dir == if exe_dir_is_bundle {
            ResourceDir::BundleResources
        } else {
            ResourceDir::BesideExecutable
        },
{
    if exe_dir_is_bundle {
        ResourceDir::BundleResources
    } else {
        ResourceDir::BesideExecutable
    }
}

/// Where the search for the cue sound starts: beside the executable where
/// that place is known, else in the working directory, else at `nowhere`.
pub fn cue_search_start<P>(beside_executable: Option<P>, working_dir: Option<P>, nowhere: P) -> (start: P)
    ensures
        start == match beside_executable {
            Some(p) => p,
            None => match working_dir {
                Some(w) => w,
                None => nowhere,
            },
        },
{
    match beside_executable {
        Some(p) => p,
        None => match working_dir {
            Some(w) => w,
            None => nowhere,
        },
    }
}

/// The directory below which the cue sound is opened: the start of the
/// search if it holds the asset directory, else the working directory where
/// that is known, else the start all the same.
pub fn cue_search_base<P>(start: P, start_has_assets: bool, working_dir: Option<P>) -> (base: P)
    ensures
        base == if start_has_assets {
            start
        } else {
            match working_dir {
                Some(w) => w,
                None => start,
            }
        },
{
    if start_has_assets {
        start
    } else {
        match working_dir {
            Some(w) => w,
            None => start,
        }
    }
}

/// A cue never touches the track, and a track command never touches a cue:
/// the cue changes nothing in the worker, and it is played whatever the
/// state of the track.
pub proof fn law_cue_is_independent(w: AudioWorker)
    requires
        w.device_ready,
    ensures
        w.after(AudioCommandView::PlayBell) == w,
        w.action(AudioCommandView::PlayBell) == AudioActionView::Cue,
        cue_for(false) is Beep,
        cue_for(true) is Asset,
{
}

/// The worker's invariant holds as it starts, and every command and every
/// result of a load keeps it.
pub proof fn law_worker_invariant_kept(
    w: AudioWorker,
    device_ready: bool,
    command: AudioCommandView,
    succeeded: bool,
)
    requires
        w.wf(),
    ensures
        AudioWorker::initial(device_ready).wf(),
        w.after(command).wf(),
        w.after_load(succeeded).wf(),
{
}

/// A worker without a device drops every command and stays as it is, and
/// it never has a track.
pub proof fn law_no_device_no_action(w: AudioWorker, command: AudioCommandView)
    requires
        w.wf(),
        !w.device_ready,
    ensures
        w.after(command) == w,
        w.action(command) == AudioActionView::Idle,
        w.after(command).sink is None,
{
}

/// The queue after the commands of `commands` have been submitted, one
/// after the other.
pub open spec fn submit_all(q: AudioQueueView, commands: Seq<AudioCommandView>) -> AudioQueueView
    decreases commands.len(),
{
    if commands.len() == 0 {
        q
    } else {
        submit_all(q.submit(commands.first()), commands.drop_first())
    }
}

/// Commands leave the queue in the order in which they entered it: any run
/// of submissions goes behind all that waits, in the order of submission, so
/// that taking from the front gives first what waited, then the run in its
/// order. A queue without a worker keeps nothing.
pub proof fn law_queue_is_fifo(q: AudioQueueView, commands: Seq<AudioCommandView>)
    ensures
        q.connected ==> submit_all(q, commands).pending == q.pending + commands,
        !q.connected ==> submit_all(q, commands) == q,
        submit_all(q, commands).connected == q.connected,
    decreases commands.len(),
{
    if commands.len() > 0 {
        law_queue_is_fifo(q.submit(commands.first()), commands.drop_first());
        if q.connected {
            assert(q.pending.push(commands.first()) + commands.drop_first() =~= q.pending
                + commands);
        }
    } else {
        assert(q.pending + commands =~= q.pending);
    }
}

} // verus!
