//! A session timer engine for structured work/break schedules.
//!
//! The crate holds the decisions of three cooperating parts: the timer that
//! counts a session down task by task, the activity monitor that raises one
//! warning per idle episode, and the audio worker that plays cues and
//! background tracks. Each part is plain data behind `&mut` methods; the
//! embedding program owns the locks, the background loops and the devices.
pub mod activity;
pub mod audio;
pub mod commands;
pub mod events;
pub mod models;
pub mod timer;
pub mod timer_laws;
pub mod timer_model;
