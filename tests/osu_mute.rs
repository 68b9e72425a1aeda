use std::sync::atomic::{AtomicBool, Ordering};
use std::sync::Arc;
use std::time::Duration;

use lum::manager::Service;
use lum::osu_mute::{
    task_step, watchdog_status, Dependency, OsuMuteService, TaskError, TaskOutcome, TaskStep,
};
use lum::status::{Priority, Status};

fn runtime() -> tokio::runtime::Runtime {
    tokio::runtime::Builder::new_current_thread().enable_time().build().unwrap()
}

#[test]
fn new_service_identity() {
    let s = OsuMuteService::new();
    assert_eq!(s.info().id, "lum_builtin_osu_mute");
    assert_eq!(s.info().name, "osu! Mute");
    assert_eq!(s.info().priority, Priority::Optional);
    assert_eq!(s.info().status, Status::NotStarted);
    assert_eq!(s.pending(), 0);
    assert!(!s.task_attached());
    assert!(s.task_notify().is_none());
}

#[test]
fn clean_exit_is_recorded_as_unexpected_stop() {
    let mut s = OsuMuteService::new();
    let record = s.watchdog(&TaskOutcome::Finished);
    assert_eq!(
        s.info().status,
        Status::RuntimeError("The background task has stopped unexpectedly.".to_string())
    );
    assert_eq!(
        record,
        "Watchdog triggered for service lum_builtin_osu_mute. Runtime error: The background task has stopped unexpectedly."
    );
}

#[test]
fn returned_error_is_recorded_with_its_text() {
    let mut s = OsuMuteService::new();
    s.watchdog(&TaskOutcome::Failed(TaskError::DiscordServiceNotAvailable("X".to_string())));
    match &s.info().status {
        Status::RuntimeError(reason) => {
            assert!(reason.contains("X"));
            assert_eq!(
                reason,
                "The background task has encountered an error: Discord service expected to be available, but it was X"
            );
        }
        other => panic!("unexpected status {:?}", other),
    }
}

#[test]
fn abnormal_end_is_recorded() {
    assert_eq!(
        watchdog_status(&TaskOutcome::Terminated),
        Status::RuntimeError("The background task has terminated abnormally.".to_string())
    );
    assert_eq!(
        watchdog_status(&TaskOutcome::Failed(TaskError::DiscordServiceNotFound)),
        Status::RuntimeError(
            "The background task has encountered an error: Discord service not found!".to_string()
        )
    );
}

#[test]
fn idle_loop_waits_until_work_is_added() {
    let mut s = OsuMuteService::new();
    assert_eq!(s.step(&Status::Started), TaskStep::Wait);
    assert_eq!(s.mute(10, 20), None);
    assert_eq!(s.pending(), 1);
    assert_eq!(s.step(&Status::Started), TaskStep::Tick);
    assert_eq!(s.mute(10, 21), Some(20));
    assert_eq!(s.muted_user(10), Some(21));
    assert_eq!(s.muted_user(11), None);
    assert_eq!(s.pending(), 1);
}

#[test]
fn loop_fails_when_client_is_not_running() {
    assert_eq!(task_step(0, &Status::Stopped), TaskStep::Wait);
    assert_eq!(
        task_step(2, &Status::Stopped),
        TaskStep::Fail(TaskError::DiscordServiceNotAvailable("Stopped".to_string()))
    );
    assert_eq!(
        TaskError::DiscordServiceNotAvailable("Stopped".to_string()).describe(),
        "Discord service expected to be available, but it was Stopped"
    );
    assert_eq!(TaskError::DiscordServiceNotFound.describe(), "Discord service not found!");
}

#[test]
fn start_without_dependency_fails() {
    let mut s = OsuMuteService::new();
    assert_eq!(s.start(None), Err("DiscordService not found!".to_string()));
    assert_eq!(s.discord_service(), None);
}

#[test]
fn start_with_unavailable_dependency_spawns_nothing() {
    let mut s = OsuMuteService::new();
    let r = s.start(Some(Dependency { handle: 0, available: false }));
    assert_eq!(r, Err("DiscordService is not available!".to_string()));
    assert!(!s.task_attached());
    assert_eq!(s.discord_service(), None);
    assert!(s.task_notify().is_none());
}

#[test]
fn start_attach_and_stop() {
    let rt = runtime();
    let mut s = OsuMuteService::new();
    assert_eq!(s.start(Some(Dependency { handle: 3, available: true })), Ok(()));
    assert_eq!(s.discord_service(), Some(3));
    assert!(s.task_notify().is_some());
    assert_eq!(
        s.start(Some(Dependency { handle: 4, available: true })),
        Err("Error setting DiscordService SetLock: value already set".to_string())
    );
    assert_eq!(s.discord_service(), Some(3));
    assert_eq!(s.attach_task(rt.spawn(async {})), Ok(()));
    assert!(s.task_attached());
    assert_eq!(
        s.attach_task(rt.spawn(async {})),
        Err("Error setting Watchdog JoinHandle SetLock: value already set".to_string())
    );
    assert_eq!(s.stop(), Ok(()));
}

#[test]
fn mute_after_start_stores_a_wake_permit() {
    let rt = runtime();
    let mut s = OsuMuteService::new();
    s.start(Some(Dependency { handle: 0, available: true })).unwrap();
    s.mute(1, 2);
    let woke = rt.block_on(async {
        let notify = s.task_notify().unwrap();
        tokio::time::timeout(Duration::from_secs(1), notify.notified()).await
    });
    assert!(woke.is_ok());
}

#[test]
fn stop_cancels_the_background_task() {
    let rt = runtime();
    let ran = Arc::new(AtomicBool::new(false));
    let flag = Arc::clone(&ran);
    let mut s = OsuMuteService::new();
    s.start(Some(Dependency { handle: 0, available: true })).unwrap();
    let handle = rt.spawn(async move {
        tokio::time::sleep(Duration::from_millis(50)).await;
        flag.store(true, Ordering::SeqCst);
    });
    s.attach_task(handle).unwrap();
    s.stop().unwrap();
    rt.block_on(async { tokio::time::sleep(Duration::from_millis(150)).await });
    assert!(!ran.load(Ordering::SeqCst));
}

#[test]
fn default_is_a_fresh_service() {
    let s = OsuMuteService::default();
    assert_eq!(s.info().id, "lum_builtin_osu_mute");
    assert_eq!(s.info().status, Status::NotStarted);
    assert_eq!(s.pending(), 0);
}

#[test]
fn unmute_removes_pending_work() {
    let mut s = OsuMuteService::new();
    s.mute(5, 6);
    assert_eq!(s.unmute(7), None);
    assert_eq!(s.unmute(5), Some(6));
    assert_eq!(s.pending(), 0);
    assert_eq!(s.muted_user(5), None);
    assert_eq!(s.step(&Status::Started), TaskStep::Wait);
}

#[test]
fn refused_second_task_keeps_the_first_handle() {
    let rt = runtime();
    let mut s = OsuMuteService::new();
    assert!(s.task_handle().is_none());
    let first = rt.spawn(async {});
    let first_id = first.id();
    s.attach_task(first).unwrap();
    let second = rt.spawn(async {});
    assert!(s.attach_task(second).is_err());
    assert_eq!(s.task_handle().map(|h| h.id()), Some(first_id));
}
