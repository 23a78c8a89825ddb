//! The error kinds that caller-facing operations report.
use vstd::prelude::*;

verus! {

#[derive(Clone, Copy, Debug, PartialEq, Eq, Structural)]
pub enum TrackError {
    /// A session for this application is already running.
    AlreadyTracking,
    /// No session exists for this application.
    NotTracking,
    /// Attaching needs the process to be running, and it is not.
    NotRunning,
    /// None of the paths handed to the watcher exists.
    NoValidPaths,
    /// Starting the executable failed for a reason other than elevation.
    LaunchFailed,
    /// The elevated relaunch failed.
    ElevationFailed,
    /// The session store could not be read.
    StoreReadFailed,
    /// The session store could not be written.
    StoreWriteFailed,
    /// A single path could not be registered with the watcher.
    WatchRegistrationFailed,
}

impl TrackError {
    /// A sentence describing the error, for callers that report strings.
    pub fn message(&self) -> (r: String)
        ensures
            r@ == match self {
                TrackError::AlreadyTracking => "Process is already being tracked for this app"@,
                TrackError::NotTracking => "No tracking session found for this app"@,
                TrackError::NotRunning => "Process is not currently running"@,
                TrackError::NoValidPaths => "No valid paths provided for tracking"@,
                TrackError::LaunchFailed => "Failed to start process"@,
                TrackError::ElevationFailed => "Failed to start elevated process"@,
                TrackError::StoreReadFailed => "Failed to read playtime file"@,
                TrackError::StoreWriteFailed => "Failed to write playtime file"@,
                TrackError::WatchRegistrationFailed => "Failed to watch path"@,
            },
    {
        match self {
            TrackError::AlreadyTracking => String::from_str(
                "Process is already being tracked for this app",
            ),
            TrackError::NotTracking => String::from_str("No tracking session found for this app"),
            TrackError::NotRunning => String::from_str("Process is not currently running"),
            TrackError::NoValidPaths => String::from_str("No valid paths provided for tracking"),
            TrackError::LaunchFailed => String::from_str("Failed to start process"),
            TrackError::ElevationFailed => String::from_str("Failed to start elevated process"),
            TrackError::StoreReadFailed => String::from_str("Failed to read playtime file"),
            TrackError::StoreWriteFailed => String::from_str("Failed to write playtime file"),
            TrackError::WatchRegistrationFailed => String::from_str("Failed to watch path"),
        }
    }
}

} // verus!
