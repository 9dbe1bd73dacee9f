//! The outside work of a pattern's lifecycle: what the host is asked to do,
//! and what it reports back.

use vstd::prelude::*;
use crate::client::{DrainResponse, InitializeResponse, StartResponse, StopResponse};
use crate::error::{lift, ErrorView, LifecycleError};
use crate::outside::json_text;

verus! {

/// Milliseconds that a freshly launched process is given to settle.
pub const SETTLE_MS: u64 = 500;

/// Milliseconds to wait after the first failed connect attempt.
pub const FIRST_BACKOFF_MS: u64 = 100;

/// The longest wait between two connect attempts, in milliseconds.
pub const MAX_BACKOFF_MS: u64 = 2000;

/// How many times a connect is attempted before giving up.
pub const MAX_CONNECT_ATTEMPTS: u32 = 5;

/// Seconds that a backend is given to stop of its own accord.
pub const STOP_TIMEOUT_SECONDS: i32 = 30;

/// One piece of outside work, or the end of the sequence.
///
/// The host performs the step, then hands the step and its outcome back to
/// the registry, which answers with the next one.
#[derive(Debug, PartialEq, Eq)]
pub enum Step {
    /// Launch `binary_path` with the arguments `--grpc-port` and `port`.
    Spawn { binary_path: std::path::PathBuf, port: u16 },
    /// Wait `millis` for the launched process to settle.
    Settle { millis: u64 },
    /// Open a channel to `endpoint`; this is attempt number `attempt`, and
    /// `backoff_ms` is the wait that follows if it fails.
    Connect { endpoint: String, attempt: u32, backoff_ms: u64 },
    /// Wait `millis`, then attempt number `attempt` follows, with
    /// `backoff_ms` as its wait.
    Backoff { millis: u64, attempt: u32, backoff_ms: u64 },
    /// Wait `millis`; no attempt follows. The last attempt failed with
    /// `error`, and once its wait is over the connect has failed for good.
    GiveUp { millis: u64, error: String },
    /// Call `Initialize` with these values.
    Initialize { name: String, version: String, config: serde_json::Value },
    /// Call `Start`.
    Start,
    /// Call `Drain` with these values.
    Drain { timeout_seconds: i32, reason: String },
    /// Call `Stop` with this budget.
    Stop { timeout_seconds: i32 },
    /// End the process by force and wait for its exit.
    Kill,
    /// Nothing is left to do; the sequence ended with this result.
    Finished(Result<(), LifecycleError>),
}

/// The mathematical value of a `Step`.
pub ghost enum StepView {
    Spawn { binary_path: std::path::PathBuf, port: u16 },
    Settle { millis: u64 },
    Connect { endpoint: Seq<char>, attempt: u32, backoff_ms: u64 },
    Backoff { millis: u64, attempt: u32, backoff_ms: u64 },
    GiveUp { millis: u64, error: Seq<char> },
    Initialize { name: Seq<char>, version: Seq<char>, config: Seq<char> },
    Start,
    Drain { timeout_seconds: i32, reason: Seq<char> },
    Stop { timeout_seconds: i32 },
    Kill,
    Finished(Result<(), ErrorView>),
}

impl View for Step {
    type V = StepView;

    open spec fn view(&self) -> StepView {
        match self {
            Step::Spawn { binary_path, port } => StepView::Spawn {
                binary_path: *binary_path,
                port: *port,
            },
            Step::Settle { millis } => StepView::Settle { millis: *millis },
            Step::Connect { endpoint, attempt, backoff_ms } => StepView::Connect {
                endpoint: endpoint@,
                attempt: *attempt,
                backoff_ms: *backoff_ms,
            },
            Step::Backoff { millis, attempt, backoff_ms } => StepView::Backoff {
                millis: *millis,
                attempt: *attempt,
                backoff_ms: *backoff_ms,
            },
            Step::GiveUp { millis, error } => StepView::GiveUp { millis: *millis, error: error@ },
            Step::Initialize { name, version, config } => StepView::Initialize {
                name: name@,
                version: version@,
                config: json_text(*config),
            },
            Step::Start => StepView::Start,
            Step::Drain { timeout_seconds, reason } => StepView::Drain {
                timeout_seconds: *timeout_seconds,
                reason: reason@,
            },
            Step::Stop { timeout_seconds } => StepView::Stop { timeout_seconds: *timeout_seconds },
            Step::Kill => StepView::Kill,
            Step::Finished(result) => StepView::Finished(lift(*result)),
        }
    }
}

impl Step {
    /// Whether the sequence has ended.
    pub fn is_finished(&self) -> (finished: bool)
        ensures
            finished == (self@ is Finished),
    {
        match self {
            Step::Finished(_) => true,
            _ => false,
        }
    }

    /// The result of a sequence that has ended; `None` while work is left.
    pub fn into_result(self) -> (result: Option<Result<(), LifecycleError>>)
        ensures
            match result {
                Some(ended) => self@ == StepView::Finished(lift(ended)),
                None => !(self@ is Finished),
            },
    {
        match self {
            Step::Finished(result) => Some(result),
            _ => None,
        }
    }
}

/// What the host observed when it performed a step.
#[derive(Debug, Clone, PartialEq, Eq)]
pub enum Outcome {
    /// The work was done and there is nothing to report: the process was
    /// launched, the wait is over, the channel is open, the process is gone.
    Done,
    /// The operating system or the transport failed, with this message.
    Failed(String),
    /// The backend replied to `Initialize`.
    Initialized(InitializeResponse),
    /// The backend replied to `Start`.
    Started(StartResponse),
    /// The backend replied to `Drain`.
    Drained(DrainResponse),
    /// The backend replied to `Stop`.
    Stopped(StopResponse),
}

} // verus!

verus! {

/// The four stages of a start sequence: each can fail, and is then named in
/// the status and in the error.
#[derive(Debug, Clone, Copy, PartialEq, Eq, Structural)]
pub enum Stage {
    Spawn,
    Connect,
    Initialize,
    Start,
}

impl Stage {
    /// What stands before the failure's message in the status.
    pub open spec fn status_text(self) -> Seq<char> {
        match self {
            Stage::Spawn => "Spawn failed: "@,
            Stage::Connect => "gRPC connect failed: "@,
            Stage::Initialize => "Initialize failed: "@,
            Stage::Start => "Start failed: "@,
        }
    }

    /// What stands before the failure's message in the error.
    pub open spec fn error_text(self) -> Seq<char> {
        match self {
            Stage::Spawn => "Failed to spawn pattern: "@,
            Stage::Connect => "Failed to connect gRPC client: "@,
            Stage::Initialize => "Failed to initialize pattern: "@,
            Stage::Start => "Failed to start pattern: "@,
        }
    }

    /// What stands before the failure's message in the status.
    pub fn status_prefix(self) -> (prefix: &'static str)
        ensures
            prefix@ == self.status_text(),
    {
        match self {
            Stage::Spawn => "Spawn failed: ",
            Stage::Connect => "gRPC connect failed: ",
            Stage::Initialize => "Initialize failed: ",
            Stage::Start => "Start failed: ",
        }
    }

    /// What stands before the failure's message in the error.
    pub fn error_prefix(self) -> (prefix: &'static str)
        ensures
            prefix@ == self.error_text(),
    {
        match self {
            Stage::Spawn => "Failed to spawn pattern: ",
            Stage::Connect => "Failed to connect gRPC client: ",
            Stage::Initialize => "Failed to initialize pattern: ",
            Stage::Start => "Failed to start pattern: ",
        }
    }
}

} // verus!
