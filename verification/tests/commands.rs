use process_supervisor::supervisor::finish_stop;
use process_supervisor::supervisor::LaunchEvent;
use process_supervisor::supervisor::StartAction;
use process_supervisor::supervisor::StartStatus;
use process_supervisor::supervisor::StopEvent;
use process_supervisor::supervisor::StopStatus;
use process_supervisor::supervisor::Supervisor;
use process_supervisor::supervisor::SupervisorError;

#[test]
fn fresh_supervisor_is_not_running() {
    let s = Supervisor::new();
    assert!(!s.is_running());
}

#[test]
fn start_twice_without_stop_reports_already_running() {
    let mut s = Supervisor::new();
    assert!(matches!(s.start_action(), StartAction::Launch));
    let first = s.record_launch(LaunchEvent::Launched(41));
    assert_eq!(first, Ok(StartStatus::Started));
    assert!(s.is_running());
    assert!(matches!(s.start_action(), StartAction::ReportAlreadyRunning));
    assert!(s.is_running());
}

#[test]
fn stop_twice_reports_not_running_the_second_time() {
    let mut s = Supervisor::new();
    s.record_launch(LaunchEvent::Launched(7)).unwrap();
    let held = s.begin_stop();
    assert_eq!(held, Some(7));
    assert!(!s.is_running());
    assert_eq!(finish_stop(StopEvent::Killed), Ok(StopStatus::Stopped));
    let held_again = s.begin_stop();
    assert_eq!(held_again, None);
    assert!(!s.is_running());
    assert_eq!(finish_stop(StopEvent::NoProcess), Ok(StopStatus::NotRunning));
}

#[test]
fn linearized_concurrent_starts_create_one_process() {
    let mut s = Supervisor::new();
    let mut launches = 0;
    let mut already_running = 0;
    for pid in [7u64, 8, 9, 10, 11] {
        match s.start_action() {
            StartAction::Launch => {
                launches += 1;
                assert_eq!(
                    s.record_launch(LaunchEvent::Launched(pid)),
                    Ok(StartStatus::Started)
                );
            }
            StartAction::ReportAlreadyRunning => {
                already_running += 1;
            }
        }
    }
    assert_eq!(launches, 1);
    assert_eq!(already_running, 4);
    assert!(s.is_running());
    assert_eq!(s.begin_stop(), Some(7));
}

#[test]
fn start_then_stop_round_trips_to_empty() {
    let mut s = Supervisor::new();
    assert!(!s.is_running());
    s.record_launch(LaunchEvent::Launched(23)).unwrap();
    assert!(s.is_running());
    let held = s.begin_stop();
    assert_eq!(held, Some(23));
    assert!(!s.is_running());
}

#[test]
fn launch_failure_leaves_slot_empty_and_startable() {
    let mut s = Supervisor::new();
    let r = s.record_launch(LaunchEvent::LaunchFailed("no such file".to_string()));
    assert_eq!(
        r,
        Err(SupervisorError::LaunchFailure("no such file".to_string()))
    );
    assert!(!s.is_running());
    assert!(matches!(s.start_action(), StartAction::Launch));
    let retry = s.record_launch(LaunchEvent::Launched(99));
    assert_eq!(retry, Ok(StartStatus::Started));
    assert!(s.is_running());
}

#[test]
fn kill_failure_is_an_error_but_slot_stays_empty() {
    let mut s = Supervisor::new();
    s.record_launch(LaunchEvent::Launched(13)).unwrap();
    let held = s.begin_stop();
    assert_eq!(held, Some(13));
    assert!(!s.is_running());
    let r = finish_stop(StopEvent::KillFailed("permission denied".to_string()));
    assert_eq!(
        r,
        Err(SupervisorError::TerminationFailure(
            "permission denied".to_string()
        ))
    );
}

#[test]
fn status_messages_match_the_reported_texts() {
    assert_eq!(StartStatus::Started.message(), "started");
    assert_eq!(StartStatus::AlreadyRunning.message(), "already-running");
    assert_eq!(StopStatus::Stopped.message(), "stopped");
    assert_eq!(StopStatus::NotRunning.message(), "not-running");
}

#[test]
fn error_messages_carry_the_os_description() {
    let launch = SupervisorError::LaunchFailure("exec format error".to_string());
    assert_eq!(
        launch.message(),
        "could not launch the backend: exec format error"
    );
    let kill = SupervisorError::TerminationFailure("no such process".to_string());
    assert_eq!(
        kill.message(),
        "could not terminate the backend: no such process"
    );
}
