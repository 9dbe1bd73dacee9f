//! Runs over the whole registry: the drain and the stop of every pattern.
//!
//! A run visits the patterns in the order of the registry. One pattern's
//! failure is recorded and the run goes on with the next; the failures are
//! there to read when the run has ended.

use vstd::prelude::*;
use crate::error::LifecycleError;
use crate::model::{FailureView, FleetOpView, FleetView};
use crate::step::Step;

verus! {

/// What a run does to every pattern in turn.
#[derive(Debug, PartialEq, Eq)]
pub enum FleetOp {
    /// Ask the backend to drain within `timeout_seconds`, for `reason`.
    Drain { timeout_seconds: i32, reason: String },
    /// Stop the backend and end its process.
    Stop,
}

impl View for FleetOp {
    type V = FleetOpView;

    open spec fn view(&self) -> FleetOpView {
        match self {
            FleetOp::Drain { timeout_seconds, reason } => FleetOpView::Drain {
                timeout_seconds: *timeout_seconds,
                reason: reason@,
            },
            FleetOp::Stop => FleetOpView::Stop,
        }
    }
}

/// The failure of one pattern in a run.
#[derive(Debug, PartialEq, Eq)]
pub struct Failure {
    pub name: String,
    pub error: LifecycleError,
}

impl View for Failure {
    type V = FailureView;

    open spec fn view(&self) -> FailureView {
        FailureView { name: self.name@, error: self.error@ }
    }
}

/// Failures, by their views.
pub open spec fn failure_views(failures: Seq<Failure>) -> Seq<FailureView> {
    failures.map_values(|f: Failure| f@)
}

/// A run over the registry: the step that the host is to perform next for
/// one pattern, and the failures so far.
#[derive(Debug, PartialEq, Eq)]
pub struct FleetStep {
    /// What is done to each pattern.
    pub op: FleetOp,
    /// Where the pattern stands that the step is for.
    pub cursor: usize,
    /// The step to perform next; `Finished` once the run has ended.
    pub step: Step,
    /// The failures so far, in the order of the registry.
    pub failures: Vec<Failure>,
}

impl View for FleetStep {
    type V = FleetView;

    open spec fn view(&self) -> FleetView {
        FleetView {
            op: self.op@,
            cursor: self.cursor as int,
            step: self.step@,
            failures: failure_views(self.failures@),
        }
    }
}

impl FleetStep {
    /// Whether the run has ended.
    pub fn is_finished(&self) -> (finished: bool)
        ensures
            finished == (self@.step is Finished),
    {
        self.step.is_finished()
    }
}

} // verus!
