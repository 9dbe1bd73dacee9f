//! The states of a pattern, and the health that a backend reports.

use vstd::prelude::*;
use vstd::string::*;

verus! {

/// The state of one pattern. Exactly one is current at any instant.
#[derive(Debug, PartialEq, Eq)]
pub enum PatternStatus {
    /// Registered, not started yet.
    Uninitialized,
    /// The start sequence is under way.
    Starting,
    /// Started and healthy.
    Running,
    /// Started, serving, and unhealthy.
    Degraded,
    /// The stop sequence is under way.
    Stopping,
    /// Stopped.
    Stopped,
    /// A step failed; the text says which and why.
    Failed(String),
}

/// The mathematical value of a `PatternStatus`.
pub ghost enum StatusView {
    Uninitialized,
    Starting,
    Running,
    Degraded,
    Stopping,
    Stopped,
    Failed(Seq<char>),
}

impl StatusView {
    /// Whether the backend is believed to serve: `Running` or `Degraded`.
    pub open spec fn is_running(self) -> bool {
        self is Running || self is Degraded
    }
}

impl View for PatternStatus {
    type V = StatusView;

    open spec fn view(&self) -> StatusView {
        match self {
            PatternStatus::Uninitialized => StatusView::Uninitialized,
            PatternStatus::Starting => StatusView::Starting,
            PatternStatus::Running => StatusView::Running,
            PatternStatus::Degraded => StatusView::Degraded,
            PatternStatus::Stopping => StatusView::Stopping,
            PatternStatus::Stopped => StatusView::Stopped,
            PatternStatus::Failed(reason) => StatusView::Failed(reason@),
        }
    }
}

impl Clone for PatternStatus {
    fn clone(&self) -> (copy: Self)
        ensures
            copy@ == self@,
    {
        match self {
            PatternStatus::Uninitialized => PatternStatus::Uninitialized,
            PatternStatus::Starting => PatternStatus::Starting,
            PatternStatus::Running => PatternStatus::Running,
            PatternStatus::Degraded => PatternStatus::Degraded,
            PatternStatus::Stopping => PatternStatus::Stopping,
            PatternStatus::Stopped => PatternStatus::Stopped,
            PatternStatus::Failed(reason) => PatternStatus::Failed(reason.clone()),
        }
    }
}

/// The health that a backend reports of itself.
#[derive(Debug, Clone, Copy, PartialEq, Eq, Structural)]
pub enum HealthStatus {
    /// The backend gave no health that the gateway knows.
    Unknown,
    Healthy,
    Degraded,
    Unhealthy,
}

/// The status that a health report stands for.
pub open spec fn health_status(health: HealthStatus, message: Seq<char>) -> StatusView {
    match health {
        HealthStatus::Healthy => StatusView::Running,
        HealthStatus::Degraded => StatusView::Degraded,
        HealthStatus::Unhealthy => StatusView::Failed(message),
        HealthStatus::Unknown => StatusView::Failed("unknown"@),
    }
}

impl PatternStatus {
    /// Whether the backend is believed to serve: `Running` or `Degraded`.
    pub fn is_running(&self) -> (running: bool)
        ensures
            running == self@.is_running(),
    {
        match self {
            PatternStatus::Running => true,
            PatternStatus::Degraded => true,
            _ => false,
        }
    }

    /// The status that a health report stands for: healthy is `Running`,
    /// degraded is `Degraded`, unhealthy is `Failed` with the backend's
    /// message, and anything else is `Failed` with the text "unknown".
    pub fn from_health(health: HealthStatus, message: String) -> (status: PatternStatus)
        ensures
            status@ == health_status(health, message@),
    {
        match health {
            HealthStatus::Healthy => PatternStatus::Running,
            HealthStatus::Degraded => PatternStatus::Degraded,
            HealthStatus::Unhealthy => PatternStatus::Failed(message),
            HealthStatus::Unknown => PatternStatus::Failed(String::from_str("unknown")),
        }
    }
}

} // verus!
