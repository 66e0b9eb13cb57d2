use session_timer::audio::{
    cue_playback, cue_resource_dir, cue_search_base, cue_search_start, AudioAction,
    AudioCommand, AudioManager, AudioWorker, CuePlayback, ResourceDir, SinkState, Tone, Volume,
    ASSET_DIR, BUNDLE_EXECUTABLE_DIR, BUNDLE_RESOURCE_DIR, CLOSED_MESSAGE, CUE_DIR, CUE_FILE,
    CUE_HIGH_AMPLITUDE_BITS, CUE_LOW_AMPLITUDE_BITS, CUE_VOLUME_BITS, DEFAULT_VOLUME_BITS,
};
use session_timer::commands::{pause_music, play_music, set_volume, stop_music};

fn level(value: f32) -> Volume {
    Volume { bits: value.to_bits() }
}

#[test]
fn levels_are_the_bits_of_the_gains() {
    assert_eq!(f32::from_bits(DEFAULT_VOLUME_BITS), 0.5);
    assert_eq!(f32::from_bits(CUE_VOLUME_BITS), 0.8);
    assert_eq!(f32::from_bits(CUE_LOW_AMPLITUDE_BITS), 0.5);
    assert_eq!(f32::from_bits(CUE_HIGH_AMPLITUDE_BITS), 0.3);
    assert!(f32::from_bits(CUE_VOLUME_BITS) > f32::from_bits(DEFAULT_VOLUME_BITS));
}

#[test]
fn commands_leave_in_the_order_they_entered() {
    let mut manager = AudioManager::new();
    assert!(!manager.has_pending());
    assert_eq!(manager.next_command(), None);
    assert_eq!(manager.play("a.mp3".to_string(), true), Ok(()));
    manager.play_bell();
    manager.pause();
    manager.set_volume(level(0.25));
    manager.stop();
    assert!(manager.has_pending());
    assert_eq!(
        manager.next_command(),
        Some(AudioCommand::Play("a.mp3".to_string(), true))
    );
    assert_eq!(manager.next_command(), Some(AudioCommand::PlayBell));
    assert_eq!(manager.next_command(), Some(AudioCommand::Pause));
    assert_eq!(manager.next_command(), Some(AudioCommand::SetVolume(level(0.25))));
    assert_eq!(manager.next_command(), Some(AudioCommand::Stop));
    assert_eq!(manager.next_command(), None);
    assert!(!manager.has_pending());
}

#[test]
fn closed_queue_refuses_play_and_drops_the_rest() {
    let mut manager = AudioManager::new();
    manager.play_bell();
    manager.close();
    assert!(!manager.has_pending());
    assert_eq!(
        manager.play("a.mp3".to_string(), false),
        Err("sending on a closed channel".to_string())
    );
    assert_eq!(CLOSED_MESSAGE, "sending on a closed channel");
    manager.play_bell();
    manager.pause();
    manager.stop();
    manager.set_volume(level(1.0));
    assert_eq!(manager.next_command(), None);
}

#[test]
fn music_commands_queue_like_the_methods() {
    let mut manager = AudioManager::new();
    assert_eq!(play_music("b.ogg".to_string(), false, &mut manager), Ok(()));
    pause_music(&mut manager);
    stop_music(&mut manager);
    set_volume(level(0.75), &mut manager);
    assert_eq!(
        manager.next_command(),
        Some(AudioCommand::Play("b.ogg".to_string(), false))
    );
    assert_eq!(manager.next_command(), Some(AudioCommand::Pause));
    assert_eq!(manager.next_command(), Some(AudioCommand::Stop));
    assert_eq!(manager.next_command(), Some(AudioCommand::SetVolume(level(0.75))));
    manager.close();
    assert!(play_music("b.ogg".to_string(), false, &mut manager).is_err());
}

#[test]
fn worker_starts_silent_at_default_volume() {
    let worker = AudioWorker::new(true);
    assert_eq!(
        worker,
        AudioWorker { device_ready: true, sink: None, volume: level(0.5), loading: false }
    );
}

#[test]
fn play_replaces_the_track() {
    let mut worker = AudioWorker::new(true);
    assert_eq!(
        worker.handle(AudioCommand::Play("a.mp3".to_string(), true)),
        AudioAction::Load {
            path: "a.mp3".to_string(),
            looping: true,
            stop_current: false,
            volume: level(0.5),
        }
    );
    assert_eq!(worker.sink, None);
    assert!(worker.loading);
    worker.loaded(true);
    assert_eq!(worker.sink, Some(SinkState::Playing));
    assert!(!worker.loading);
    assert_eq!(
        worker.handle(AudioCommand::Play("b.mp3".to_string(), false)),
        AudioAction::Load {
            path: "b.mp3".to_string(),
            looping: false,
            stop_current: true,
            volume: level(0.5),
        }
    );
    assert_eq!(worker.sink, None);
}

#[test]
fn failed_load_leaves_no_track() {
    let mut worker = AudioWorker::new(true);
    worker.handle(AudioCommand::Play("a.mp3".to_string(), false));
    worker.loaded(true);
    worker.handle(AudioCommand::Play("missing.mp3".to_string(), false));
    worker.loaded(false);
    assert_eq!(worker.sink, None);
    assert!(!worker.loading);
    assert_eq!(worker.handle(AudioCommand::Pause), AudioAction::Idle);
    assert_eq!(worker.handle(AudioCommand::Stop), AudioAction::Idle);
}

#[test]
fn unasked_load_result_is_ignored() {
    let mut worker = AudioWorker::new(true);
    worker.loaded(true);
    assert_eq!(worker, AudioWorker::new(true));
}

#[test]
fn pause_toggles_the_track() {
    let mut worker = AudioWorker::new(true);
    assert_eq!(worker.handle(AudioCommand::Pause), AudioAction::Idle);
    worker.handle(AudioCommand::Play("a.mp3".to_string(), false));
    worker.loaded(true);
    assert_eq!(worker.handle(AudioCommand::Pause), AudioAction::PauseSink);
    assert_eq!(worker.sink, Some(SinkState::Paused));
    assert_eq!(worker.handle(AudioCommand::Pause), AudioAction::ResumeSink);
    assert_eq!(worker.sink, Some(SinkState::Playing));
}

#[test]
fn stop_releases_the_track() {
    let mut worker = AudioWorker::new(true);
    worker.handle(AudioCommand::Play("a.mp3".to_string(), false));
    worker.loaded(true);
    assert_eq!(worker.handle(AudioCommand::Stop), AudioAction::StopSink);
    assert_eq!(worker.sink, None);
    assert_eq!(worker.handle(AudioCommand::Stop), AudioAction::Idle);
}

#[test]
fn volume_is_remembered_and_applied() {
    let mut worker = AudioWorker::new(true);
    assert_eq!(worker.handle(AudioCommand::SetVolume(level(0.2))), AudioAction::Idle);
    assert_eq!(worker.volume, level(0.2));
    match worker.handle(AudioCommand::Play("a.mp3".to_string(), false)) {
        AudioAction::Load { volume, .. } => assert_eq!(volume, level(0.2)),
        other => panic!("expected a load, got {:?}", other),
    }
    worker.loaded(true);
    assert_eq!(
        worker.handle(AudioCommand::SetVolume(level(0.9))),
        AudioAction::SetSinkVolume(level(0.9))
    );
    assert_eq!(worker.volume, level(0.9));
}

#[test]
fn cue_leaves_the_track_alone() {
    let mut worker = AudioWorker::new(true);
    assert_eq!(worker.handle(AudioCommand::PlayBell), AudioAction::Cue);
    assert_eq!(worker, AudioWorker::new(true));
    worker.handle(AudioCommand::Play("a.mp3".to_string(), true));
    worker.loaded(true);
    worker.handle(AudioCommand::Pause);
    let before = worker;
    assert_eq!(worker.handle(AudioCommand::PlayBell), AudioAction::Cue);
    assert_eq!(worker, before);
}

#[test]
fn worker_without_device_drops_everything() {
    let mut worker = AudioWorker::new(false);
    let commands = vec![
        AudioCommand::Play("a.mp3".to_string(), true),
        AudioCommand::PlayBell,
        AudioCommand::Pause,
        AudioCommand::Stop,
        AudioCommand::SetVolume(level(1.0)),
    ];
    for command in commands {
        assert_eq!(worker.handle(command), AudioAction::Idle);
        assert_eq!(worker, AudioWorker::new(false));
    }
}

#[test]
fn cue_without_asset_is_the_beep() {
    assert_eq!(
        cue_playback(false),
        CuePlayback::Beep {
            low: Tone { frequency_hz: 880, duration_ms: 200, amplitude: level(0.5) },
            high: Tone { frequency_hz: 1760, duration_ms: 200, amplitude: level(0.3) },
            volume: level(0.8),
        }
    );
    assert_eq!(cue_playback(true), CuePlayback::Asset { volume: level(0.8) });
}

#[test]
fn cue_search_prefers_the_executable_then_the_working_dir() {
    assert_eq!(cue_search_start(Some("exe"), Some("cwd"), ""), "exe");
    assert_eq!(cue_search_start(None, Some("cwd"), ""), "cwd");
    assert_eq!(cue_search_start(None::<&str>, None, ""), "");
    assert_eq!(cue_search_base("exe", true, Some("cwd")), "exe");
    assert_eq!(cue_search_base("exe", false, Some("cwd")), "cwd");
    assert_eq!(cue_search_base("exe", false, None), "exe");
    assert_eq!(cue_search_base("exe", true, None), "exe");
    assert_eq!(format!("{}/{}/{}", ASSET_DIR, CUE_DIR, CUE_FILE), "dist/tone/bell.mp3");
}

#[test]
fn bundle_keeps_its_assets_in_the_resource_dir() {
    assert_eq!(cue_resource_dir(true), ResourceDir::BundleResources);
    assert_eq!(cue_resource_dir(false), ResourceDir::BesideExecutable);
    assert_eq!(BUNDLE_EXECUTABLE_DIR, "MacOS");
    assert_eq!(BUNDLE_RESOURCE_DIR, "Resources");
}

#[test]
fn many_commands_keep_their_order() {
    let mut manager = AudioManager::new();
    let mut sent = Vec::new();
    for i in 0..50u32 {
        let command = match i % 5 {
            0 => AudioCommand::Play(format!("track-{}.mp3", i), i % 2 == 0),
            1 => AudioCommand::PlayBell,
            2 => AudioCommand::Pause,
            3 => AudioCommand::SetVolume(Volume { bits: i }),
            _ => AudioCommand::Stop,
        };
        match command.clone() {
            AudioCommand::Play(path, looping) => assert_eq!(manager.play(path, looping), Ok(())),
            AudioCommand::PlayBell => manager.play_bell(),
            AudioCommand::Pause => manager.pause(),
            AudioCommand::SetVolume(volume) => manager.set_volume(volume),
            AudioCommand::Stop => manager.stop(),
        }
        sent.push(command);
    }
    let mut taken = Vec::new();
    while let Some(command) = manager.next_command() {
        taken.push(command);
    }
    assert_eq!(taken, sent);
}

#[test]
fn worker_never_holds_a_track_while_loading_or_without_device() {
    let commands = vec![
        AudioCommand::Play("a.mp3".to_string(), true),
        AudioCommand::Pause,
        AudioCommand::SetVolume(level(0.4)),
        AudioCommand::PlayBell,
        AudioCommand::Stop,
        AudioCommand::Play("b.mp3".to_string(), false),
    ];
    for device_ready in [true, false] {
        for succeeded in [true, false] {
            let mut worker = AudioWorker::new(device_ready);
            for command in commands.clone() {
                let action = worker.handle(command);
                assert!(!worker.loading || worker.sink.is_none());
                assert!(worker.device_ready || (worker.sink.is_none() && !worker.loading));
                if let AudioAction::Load { .. } = action {
                    worker.loaded(succeeded);
                    assert!(!worker.loading);
                    assert_eq!(worker.sink.is_some(), succeeded);
                }
            }
        }
    }
}
