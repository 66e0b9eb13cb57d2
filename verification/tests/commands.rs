use session_timer::commands::{
    get_timer_status, keeps_window_open, load_session, pause_timer, start_timer,
};
use session_timer::events::Event;
use session_timer::models::{Session, Task, TaskType};
use session_timer::timer::TimerManager;
use session_timer::timer_model::{LoopHandle, StartOutcome};

fn one_task_session() -> Session {
    Session {
        id: "solo".to_string(),
        name: "Solo".to_string(),
        tasks: vec![Task {
            id: "t".to_string(),
            name: "Focus".to_string(),
            duration_minutes: 2,
            task_type: TaskType::Work,
        }],
        created_at: chrono::DateTime::from_timestamp(1_700_000_000, 0)
            .unwrap()
            .naive_utc(),
    }
}

#[test]
fn timer_commands_drive_the_engine() {
    let mut manager = TimerManager::new();
    assert_eq!(get_timer_status(&manager), None);
    assert_eq!(start_timer(&mut manager), StartOutcome::Ignored);
    assert_eq!(load_session(one_task_session(), &mut manager), None);
    let status = get_timer_status(&manager).unwrap();
    assert_eq!(status.remaining_seconds, 120);
    assert_eq!(status.current_task_name, "Focus");
    assert_eq!(
        start_timer(&mut manager),
        StartOutcome::Spawn { handle: LoopHandle { id: 0 }, cancelled: None }
    );
    assert!(get_timer_status(&manager).unwrap().is_running);
    assert_eq!(pause_timer(&mut manager), Some(LoopHandle { id: 0 }));
    assert!(!get_timer_status(&manager).unwrap().is_running);
    assert_eq!(pause_timer(&mut manager), None);
}

#[test]
fn window_stays_open_only_while_running() {
    let mut manager = TimerManager::new();
    assert!(!keeps_window_open(&manager));
    load_session(one_task_session(), &mut manager);
    assert!(!keeps_window_open(&manager));
    let handle = match start_timer(&mut manager) {
        StartOutcome::Spawn { handle, .. } => handle,
        StartOutcome::Ignored => panic!("start was ignored"),
    };
    assert!(keeps_window_open(&manager));
    for _ in 0..120 {
        manager.tick(handle);
    }
    assert!(keeps_window_open(&manager));
    assert_eq!(manager.tick(handle), Some(Event::SessionFinished));
    assert!(!keeps_window_open(&manager));
}
