use unlockit_core::error::TrackError;
use unlockit_core::playtime::ProcessManager;

#[test]
fn unknown_app_has_zero_playtime() {
    let pm = ProcessManager::new();
    assert_eq!(pm.current_playtime("480", 123_456), 0);
}

#[test]
fn running_session_adds_elapsed_seconds() {
    let mut pm = ProcessManager::new();
    assert_eq!(pm.start_session("480".to_string(), 100, 1_000), Ok(()));
    assert_eq!(pm.current_playtime("480", 6_999), 105);
    assert_eq!(pm.current_playtime("480", 500), 100);
}

#[test]
fn second_start_while_running_fails() {
    let mut pm = ProcessManager::new();
    pm.start_session("480".to_string(), 0, 0).unwrap();
    assert_eq!(pm.check_can_start("480"), Err(TrackError::AlreadyTracking));
    assert_eq!(pm.start_session("480".to_string(), 50, 9_000), Err(TrackError::AlreadyTracking));
    let s = pm.session("480").unwrap();
    assert_eq!((s.start_ms, s.accumulated_secs, s.is_running), (0, 0, true));
}

#[test]
fn stop_unknown_app_fails() {
    let mut pm = ProcessManager::new();
    assert_eq!(pm.stop_tracking("x".to_string(), 0), Err(TrackError::NotTracking));
}

#[test]
fn stop_then_monitor_exit_counts_once() {
    let mut pm = ProcessManager::new();
    pm.start_session("a".to_string(), 10, 0).unwrap();
    assert_eq!(pm.stop_tracking("a".to_string(), 30_000), Ok(40));
    assert_eq!(pm.finish_on_exit("a".to_string(), 90_000), None);
    assert_eq!(pm.current_playtime("a", 200_000), 40);
}

#[test]
fn monitor_exit_then_stop_counts_once() {
    let mut pm = ProcessManager::new();
    pm.start_session("a".to_string(), 10, 0).unwrap();
    assert_eq!(pm.finish_on_exit("a".to_string(), 20_000), Some(30));
    assert_eq!(pm.stop_tracking("a".to_string(), 90_000), Ok(30));
    assert_eq!(pm.current_playtime("a", 200_000), 30);
}

#[test]
fn several_cycles_sum_their_segments() {
    let mut pm = ProcessManager::new();
    let mut carried = 0u64;
    for (start, end) in [(0u64, 5_000u64), (10_000, 12_500), (20_000, 80_000)] {
        pm.start_session("g".to_string(), carried, start).unwrap();
        pm.finish_on_exit("g".to_string(), end);
        carried = pm.stop_tracking("g".to_string(), end + 7_000).unwrap();
    }
    assert_eq!(carried, 5 + 2 + 60);
    assert_eq!(pm.current_playtime("g", 1_000_000), 67);
}

#[test]
fn playtime_saturates_at_max() {
    let mut pm = ProcessManager::new();
    pm.start_session("m".to_string(), u64::MAX - 1, 0).unwrap();
    assert_eq!(pm.current_playtime("m", 10_000), u64::MAX);
    assert_eq!(pm.stop_tracking("m".to_string(), 10_000), Ok(u64::MAX));
}

#[test]
fn restart_after_stop_is_allowed() {
    let mut pm = ProcessManager::new();
    pm.start_session("a".to_string(), 0, 0).unwrap();
    pm.stop_tracking("a".to_string(), 1_000).unwrap();
    assert_eq!(pm.check_can_start("a"), Ok(()));
    assert_eq!(pm.start_session("a".to_string(), 7, 2_000), Ok(()));
    assert_eq!(pm.current_playtime("a", 4_000), 9);
}

#[test]
fn error_messages_are_sentences() {
    assert_eq!(TrackError::NoValidPaths.message(), "No valid paths provided for tracking");
    assert_eq!(TrackError::AlreadyTracking.message(), "Process is already being tracked for this app");
}

#[test]
fn every_error_has_its_message() {
    assert_eq!(TrackError::NotTracking.message(), "No tracking session found for this app");
    assert_eq!(TrackError::NotRunning.message(), "Process is not currently running");
    assert_eq!(TrackError::LaunchFailed.message(), "Failed to start process");
    assert_eq!(TrackError::ElevationFailed.message(), "Failed to start elevated process");
    assert_eq!(TrackError::StoreReadFailed.message(), "Failed to read playtime file");
    assert_eq!(TrackError::WatchRegistrationFailed.message(), "Failed to watch path");
}
