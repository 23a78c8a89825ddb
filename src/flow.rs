//! The decisions of starting a tracked application and of monitoring it,
//! as state machines: the caller performs each action and reports back.
use vstd::prelude::*;
use crate::error::TrackError;

verus! {

/// Raw OS error that asks for an elevated launch.
pub const ERROR_ELEVATION_REQUIRED: i32 = 740;

/// Pause after a launch, for the process to appear.
pub const LAUNCH_GRACE_MS: u64 = 2000;

/// Pause before the monitor's first probe.
pub const MONITOR_GRACE_MS: u64 = 2000;

/// Pause between two probes of the monitor.
pub const POLL_INTERVAL_MS: u64 = 3000;

#[derive(Clone, Copy, Debug, PartialEq, Eq, Structural)]
pub enum StartMode {
    /// Launch the executable unless it already runs.
    Launch,
    /// Only attach to a process that already runs.
    Attach,
}

/// How an attempt to spawn the executable ended.
#[derive(Clone, Copy, Debug, PartialEq, Eq, Structural)]
pub enum SpawnOutcome {
    Spawned,
    ElevationRequired,
    Failed,
}

#[derive(Clone, Copy, Debug, PartialEq, Eq, Structural)]
pub enum StartPhase {
    AwaitProbe,
    AwaitSpawn,
    AwaitElevated,
    AwaitStartup,
    Ready,
    Failed(TrackError),
}

#[derive(Clone, Copy, Debug, PartialEq, Eq, Structural)]
pub enum StartEvent {
    /// Whether the process was seen running.
    Probed(bool),
    Spawn(SpawnOutcome),
    /// Whether the elevated launch succeeded.
    Elevated(bool),
    StartupElapsed,
}

#[derive(Clone, Copy, Debug, PartialEq, Eq, Structural)]
pub enum StartAction {
    /// Check whether the process runs.
    Probe,
    /// Spawn the executable.
    Spawn,
    /// Spawn the executable with elevation.
    SpawnElevated,
    /// Wait this many milliseconds.
    Sleep(u64),
    /// Record the session and start its monitor.
    BeginSession,
    /// Report this error to the caller.
    Fail(TrackError),
    /// The event does not apply in this phase.
    Ignore,
}

/// The start procedure's transitions.
pub open spec fn start_transition(mode: StartMode, phase: StartPhase, event: StartEvent) -> (
    StartPhase,
    StartAction,
) {
    match (phase, event) {
        (StartPhase::AwaitProbe, StartEvent::Probed(true)) => (
            StartPhase::Ready,
            StartAction::BeginSession,
        ),
        (StartPhase::AwaitProbe, StartEvent::Probed(false)) => if mode == StartMode::Attach {
            (StartPhase::Failed(TrackError::NotRunning), StartAction::Fail(TrackError::NotRunning))
        } else {
            (StartPhase::AwaitSpawn, StartAction::Spawn)
        },
        (StartPhase::AwaitSpawn, StartEvent::Spawn(SpawnOutcome::Spawned)) => (
            StartPhase::AwaitStartup,
            StartAction::Sleep(LAUNCH_GRACE_MS),
        ),
        (StartPhase::AwaitSpawn, StartEvent::Spawn(SpawnOutcome::ElevationRequired)) => (
            StartPhase::AwaitElevated,
            StartAction::SpawnElevated,
        ),
        (StartPhase::AwaitSpawn, StartEvent::Spawn(SpawnOutcome::Failed)) => (
            StartPhase::Failed(TrackError::LaunchFailed),
            StartAction::Fail(TrackError::LaunchFailed),
        ),
        (StartPhase::AwaitElevated, StartEvent::Elevated(true)) => (
            StartPhase::AwaitStartup,
            StartAction::Sleep(LAUNCH_GRACE_MS),
        ),
        (StartPhase::AwaitElevated, StartEvent::Elevated(false)) => (
            StartPhase::Failed(TrackError::ElevationFailed),
            StartAction::Fail(TrackError::ElevationFailed),
        ),
        (StartPhase::AwaitStartup, StartEvent::StartupElapsed) => (
            StartPhase::Ready,
            StartAction::BeginSession,
        ),
        _ => (phase, StartAction::Ignore),
    }
}

/// Sorts a failed spawn by its raw OS error: only `ERROR_ELEVATION_REQUIRED`
/// asks for an elevated retry.
pub fn classify_spawn_error(raw_os_error: Option<i32>) -> (r: SpawnOutcome)
    ensures
        r == (if raw_os_error == Some(ERROR_ELEVATION_REQUIRED) {
            SpawnOutcome::ElevationRequired
        } else {
            SpawnOutcome::Failed
        }),
{
    match raw_os_error {
        Some(code) => {
            if code == ERROR_ELEVATION_REQUIRED {
                SpawnOutcome::ElevationRequired
            } else {
                SpawnOutcome::Failed
            }
        },
        None => SpawnOutcome::Failed,
    }
}

/// The start procedure of one application.
pub struct StartFlow {
    pub mode: StartMode,
    pub phase: StartPhase,
}

impl StartFlow {
    /// A start procedure whose first action is to probe for the process; the
    /// caller has checked beforehand that no session of the application runs.
    pub fn new(mode: StartMode) -> (r: (StartFlow, StartAction))
        ensures
            r.0.mode == mode,
            r.0.phase == StartPhase::AwaitProbe,
            r.1 == StartAction::Probe,
    {
        (StartFlow { mode, phase: StartPhase::AwaitProbe }, StartAction::Probe)
    }

    /// Takes the outcome of the last action and returns the next one.
    pub fn step(&mut self, event: StartEvent) -> (r: StartAction)
        ensures
            final(self).mode == old(self).mode,
            (final(self).phase, r) == start_transition(old(self).mode, old(self).phase, event),
    {
        let (phase, action) = match (self.phase, event) {
            (StartPhase::AwaitProbe, StartEvent::Probed(running)) => {
                if running {
                    (StartPhase::Ready, StartAction::BeginSession)
                } else {
                    match self.mode {
                        StartMode::Attach => (
                            StartPhase::Failed(TrackError::NotRunning),
                            StartAction::Fail(TrackError::NotRunning),
                        ),
                        StartMode::Launch => (StartPhase::AwaitSpawn, StartAction::Spawn),
                    }
                }
            },
            (StartPhase::AwaitSpawn, StartEvent::Spawn(outcome)) => match outcome {
                SpawnOutcome::Spawned => (
                    StartPhase::AwaitStartup,
                    StartAction::Sleep(LAUNCH_GRACE_MS),
                ),
                SpawnOutcome::ElevationRequired => (
                    StartPhase::AwaitElevated,
                    StartAction::SpawnElevated,
                ),
                SpawnOutcome::Failed => (
                    StartPhase::Failed(TrackError::LaunchFailed),
                    StartAction::Fail(TrackError::LaunchFailed),
                ),
            },
            (StartPhase::AwaitElevated, StartEvent::Elevated(ok)) => {
                if ok {
                    (StartPhase::AwaitStartup, StartAction::Sleep(LAUNCH_GRACE_MS))
                } else {
                    (
                        StartPhase::Failed(TrackError::ElevationFailed),
                        StartAction::Fail(TrackError::ElevationFailed),
                    )
                }
            },
            (StartPhase::AwaitStartup, StartEvent::StartupElapsed) => (
                StartPhase::Ready,
                StartAction::BeginSession,
            ),
            (p, _) => (p, StartAction::Ignore),
        };
        self.phase = phase;
        action
    }
}

#[derive(Clone, Copy, Debug, PartialEq, Eq, Structural)]
pub enum MonitorPhase {
    /// Waiting out the grace period before the first probe.
    Grace,
    Polling,
    Exited,
}

#[derive(Clone, Copy, Debug, PartialEq, Eq, Structural)]
pub enum MonitorAction {
    /// Wait this many milliseconds, then probe for the process.
    ProbeAfter(u64),
    /// The process is gone: end the session's segment and persist the total.
    Finalize,
    /// Nothing is left to do.
    Done,
}

/// The monitor's transitions on a probe result.
pub open spec fn monitor_transition(phase: MonitorPhase, running: bool) -> (
    MonitorPhase,
    MonitorAction,
) {
    match phase {
        MonitorPhase::Exited => (MonitorPhase::Exited, MonitorAction::Done),
        _ => if running {
            (MonitorPhase::Polling, MonitorAction::ProbeAfter(POLL_INTERVAL_MS))
        } else {
            (MonitorPhase::Exited, MonitorAction::Finalize)
        },
    }
}

/// The monitor loop of one session.
pub struct Monitor {
    pub phase: MonitorPhase,
}

impl Monitor {
    /// A monitor whose first action is to probe after the grace period.
    pub fn new() -> (r: (Monitor, MonitorAction))
        ensures
            r.0.phase == MonitorPhase::Grace,
            r.1 == MonitorAction::ProbeAfter(MONITOR_GRACE_MS),
    {
        (Monitor { phase: MonitorPhase::Grace }, MonitorAction::ProbeAfter(MONITOR_GRACE_MS))
    }

    /// Takes a probe result and returns the next action.
    pub fn on_probe(&mut self, running: bool) -> (r: MonitorAction)
        ensures
            (final(self).phase, r) == monitor_transition(old(self).phase, running),
    {
        let (phase, action) = match self.phase {
            MonitorPhase::Exited => (MonitorPhase::Exited, MonitorAction::Done),
            _ => {
                if running {
                    (MonitorPhase::Polling, MonitorAction::ProbeAfter(POLL_INTERVAL_MS))
                } else {
                    (MonitorPhase::Exited, MonitorAction::Finalize)
                }
            },
        };
        self.phase = phase;
        action
    }
}

/// A monitor finalises exactly once: after the probe that finds the process
/// gone, every further probe result leads to `Done`.
pub proof fn lemma_monitor_finalizes_once(phase: MonitorPhase, later: bool)
    requires
        phase != MonitorPhase::Exited,
    ensures
        monitor_transition(phase, false) == (MonitorPhase::Exited, MonitorAction::Finalize),
        monitor_transition(monitor_transition(phase, false).0, later).1 == MonitorAction::Done,
{
}

} // verus!
