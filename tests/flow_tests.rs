use unlockit_core::error::TrackError;
use unlockit_core::flow::{
    classify_spawn_error, Monitor, MonitorAction, SpawnOutcome, StartAction, StartEvent, StartFlow,
    StartMode, LAUNCH_GRACE_MS, MONITOR_GRACE_MS, POLL_INTERVAL_MS,
};

#[test]
fn running_process_is_attached_without_launch() {
    let (mut f, a) = StartFlow::new(StartMode::Launch);
    assert_eq!(a, StartAction::Probe);
    assert_eq!(f.step(StartEvent::Probed(true)), StartAction::BeginSession);
}

#[test]
fn launch_then_wait_then_begin() {
    let (mut f, _) = StartFlow::new(StartMode::Launch);
    assert_eq!(f.step(StartEvent::Probed(false)), StartAction::Spawn);
    assert_eq!(f.step(StartEvent::Spawn(SpawnOutcome::Spawned)), StartAction::Sleep(LAUNCH_GRACE_MS));
    assert_eq!(f.step(StartEvent::StartupElapsed), StartAction::BeginSession);
}

#[test]
fn elevation_fallback() {
    let (mut f, _) = StartFlow::new(StartMode::Launch);
    f.step(StartEvent::Probed(false));
    assert_eq!(classify_spawn_error(Some(740)), SpawnOutcome::ElevationRequired);
    assert_eq!(f.step(StartEvent::Spawn(SpawnOutcome::ElevationRequired)), StartAction::SpawnElevated);
    assert_eq!(f.step(StartEvent::Elevated(false)), StartAction::Fail(TrackError::ElevationFailed));
}

#[test]
fn plain_launch_failure_is_reported() {
    assert_eq!(classify_spawn_error(Some(2)), SpawnOutcome::Failed);
    assert_eq!(classify_spawn_error(None), SpawnOutcome::Failed);
    let (mut f, _) = StartFlow::new(StartMode::Launch);
    f.step(StartEvent::Probed(false));
    assert_eq!(f.step(StartEvent::Spawn(SpawnOutcome::Failed)), StartAction::Fail(TrackError::LaunchFailed));
}

#[test]
fn attach_needs_running_process() {
    let (mut f, _) = StartFlow::new(StartMode::Attach);
    assert_eq!(f.step(StartEvent::Probed(false)), StartAction::Fail(TrackError::NotRunning));
}

#[test]
fn unexpected_event_is_ignored() {
    let (mut f, _) = StartFlow::new(StartMode::Launch);
    assert_eq!(f.step(StartEvent::StartupElapsed), StartAction::Ignore);
    assert_eq!(f.step(StartEvent::Probed(true)), StartAction::BeginSession);
}

#[test]
fn monitor_polls_until_exit() {
    let (mut m, a) = Monitor::new();
    assert_eq!(a, MonitorAction::ProbeAfter(MONITOR_GRACE_MS));
    assert_eq!(m.on_probe(true), MonitorAction::ProbeAfter(POLL_INTERVAL_MS));
    assert_eq!(m.on_probe(true), MonitorAction::ProbeAfter(POLL_INTERVAL_MS));
    assert_eq!(m.on_probe(false), MonitorAction::Finalize);
    assert_eq!(m.on_probe(true), MonitorAction::Done);
}
