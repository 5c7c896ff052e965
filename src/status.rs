use vstd::prelude::*;

use crate::launch::{binary_name, worker_binary_name, Platform, ResolveError};

verus! {

/// Which output stream of the worker a line came from.
#[derive(Clone, Copy, Debug, PartialEq, Eq, Structural)]
pub enum OutputStream {
    Stdout,
    Stderr,
}

/// What the supervisor reports to the host.
#[derive(Debug)]
pub enum StatusEvent {
    /// The worker could not be started; a message for display.
    SpawnFailed(String),
    /// The worker printed its readiness marker.
    BackendReady,
    /// The worker's output ended before it became ready; a message for display.
    BackendExitedUnready(String),
    /// A line the worker wrote, for the host's diagnostic log.
    LogLine(OutputStream, String),
}

/// Prefix of every error message shown to the user.
pub open spec fn error_prefix() -> Seq<char> {
    "Error: "@
}

/// Message shown when the worker could not be started for `reason`.
pub open spec fn spawn_failed_text(reason: Seq<char>) -> Seq<char> {
    error_prefix() + reason
}

/// Message shown when the worker's output ended before it became ready.
pub open spec fn exited_unready_text() -> Seq<char> {
    "Error: Backend process exited unexpectedly. Check logs."@
}

/// Message shown when the worker became ready.
pub open spec fn ready_text() -> Seq<char> {
    "Backend started!"@
}

/// The reason shown when the worker binary could not be located.
pub open spec fn resolve_error_text(platform: Platform, e: ResolveError) -> Seq<char> {
    match e {
        ResolveError::ResourceUnavailable(why) =>
            "Failed to resolve backend binary '"@ + binary_name(platform) + "': "@ + why@,
        ResolveError::NoContainingDirectory =>
            "Backend binary '"@ + binary_name(platform) + "' has no containing directory"@,
    }
}

/// The `SpawnFailed` event for a failure to start the worker, with the
/// system's reason.
pub fn spawn_failed_event(reason: &str) -> (r: StatusEvent)
    ensures
        r matches StatusEvent::SpawnFailed(m) && m@ == spawn_failed_text(reason@),
{
    let mut m = "Error: ".to_owned();
    m.append(reason);
    StatusEvent::SpawnFailed(m)
}

/// The `SpawnFailed` event for a launch spec that could not be resolved.
pub fn resolve_failed_event(platform: Platform, e: ResolveError) -> (r: StatusEvent)
    ensures
        r matches StatusEvent::SpawnFailed(m) && m@ == spawn_failed_text(resolve_error_text(platform, e)),
{
    let name = worker_binary_name(platform);
    let mut m = "Error: ".to_owned();
    match e {
        ResolveError::ResourceUnavailable(why) => {
            m.append("Failed to resolve backend binary '");
            m.append(name.as_str());
            m.append("': ");
            m.append(why.as_str());
        },
        ResolveError::NoContainingDirectory => {
            m.append("Backend binary '");
            m.append(name.as_str());
            m.append("' has no containing directory");
        },
    }
    assert(m@ =~= spawn_failed_text(resolve_error_text(platform, e)));
    StatusEvent::SpawnFailed(m)
}

/// The `BackendExitedUnready` event.
pub fn exited_unready_event() -> (r: StatusEvent)
    ensures
        r matches StatusEvent::BackendExitedUnready(m) && m@ == exited_unready_text(),
{
    StatusEvent::BackendExitedUnready("Error: Backend process exited unexpectedly. Check logs.".to_owned())
}

impl StatusEvent {
    /// The message the host displays for this event; none for a log line,
    /// which goes to the diagnostic log only.
    pub fn display_text(&self) -> (r: Option<String>)
        ensures
            match self {
                StatusEvent::SpawnFailed(m) => r matches Some(t) && t@ == m@,
                StatusEvent::BackendReady => r matches Some(t) && t@ == ready_text(),
                StatusEvent::BackendExitedUnready(m) => r matches Some(t) && t@ == m@,
                StatusEvent::LogLine(_, _) => r is None,
            },
    {
        match self {
            StatusEvent::SpawnFailed(m) => Some(m.clone()),
            StatusEvent::BackendReady => Some("Backend started!".to_owned()),
            StatusEvent::BackendExitedUnready(m) => Some(m.clone()),
            StatusEvent::LogLine(_, _) => None,
        }
    }
}

} // verus!
