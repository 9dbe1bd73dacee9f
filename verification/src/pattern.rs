//! One backend process and what the gateway knows of it.
//!
//! A pattern never acts on its own: each method here takes the outcome of
//! one piece of outside work and records what follows from it. The status is
//! left to the registry, which alone moves it.

use vstd::prelude::*;
use crate::client::{
    drain_result, health_result, initialize_result, lift_status, start_result, transport_error,
    DrainResponse, HealthCheckResponse, InitializeResponse, PatternClient, PatternMetadata,
    StartResponse,
};
use crate::error::{
    lift, no_client_error, no_endpoint_error, ErrorKind, ErrorView, LifecycleError,
};
use crate::outside::{empty_object, json_text};
use crate::status::{PatternStatus, StatusView};
use crate::step::{Step, StepView, MAX_BACKOFF_MS, MAX_CONNECT_ATTEMPTS, STOP_TIMEOUT_SECONDS};
use crate::text::{endpoint_for, endpoint_text};

verus! {

/// One backend process: where its binary is, how it is configured, and how
/// far its lifecycle has come.
#[derive(Debug)]
pub struct Pattern {
    name: String,
    version: String,
    binary_path: std::path::PathBuf,
    status: PatternStatus,
    process: bool,
    grpc_endpoint: Option<String>,
    client: Option<PatternClient>,
    config: serde_json::Value,
}

/// The mathematical value of a `Pattern`.
pub ghost struct PatternView {
    /// The key under which the pattern is registered.
    pub name: Seq<char>,
    /// The version that the backend reported, empty until it did.
    pub version: Seq<char>,
    /// Where the backend's binary is.
    pub binary_path: std::path::PathBuf,
    /// The current status.
    pub status: StatusView,
    /// Whether the host holds a process that is believed alive.
    pub process: bool,
    /// The endpoint of the backend's lifecycle listener, once it was launched.
    pub grpc_endpoint: Option<Seq<char>>,
    /// The endpoint that the client is bound to, from a connect that
    /// succeeded until the pattern is stopped.
    pub client: Option<Seq<char>>,
    /// The configuration, as JSON text.
    pub config: Seq<char>,
}

/// How a connect attempt went.
#[derive(Debug, Clone, Copy, PartialEq, Eq, Structural)]
pub enum ConnectProgress {
    /// The client is bound.
    Connected,
    /// The attempt failed and another one follows: after `wait_ms`, attempt
    /// number `attempt`, with `backoff_ms` as its wait.
    Retry { wait_ms: u64, attempt: u32, backoff_ms: u64 },
    /// The attempt failed and it was the last: after `wait_ms` the connect
    /// has failed for good, with this attempt's failure.
    GiveUp { wait_ms: u64 },
}

/// An optional text, by its view.
pub open spec fn text_view(text: Option<String>) -> Option<Seq<char>> {
    match text {
        Some(t) => Some(t@),
        None => None,
    }
}

/// The failure to launch a process, with the operating system's message.
pub open spec fn process_error(message: Seq<char>) -> ErrorView {
    ErrorView { kind: ErrorKind::Process, message }
}

/// The wait that follows a wait of `backoff_ms`: twice as long, and no longer
/// than `MAX_BACKOFF_MS`.
pub open spec fn next_backoff(backoff_ms: u64) -> u64 {
    if 2 * backoff_ms >= MAX_BACKOFF_MS {
        MAX_BACKOFF_MS
    } else {
        (2 * backoff_ms) as u64
    }
}

/// The pattern that a registration creates.
pub open spec fn fresh_pattern(name: Seq<char>, binary_path: std::path::PathBuf) -> PatternView {
    PatternView {
        name,
        version: Seq::empty(),
        binary_path,
        status: StatusView::Uninitialized,
        process: false,
        grpc_endpoint: None,
        client: None,
        config: "{}"@,
    }
}

impl PatternView {
    /// A client exists only once an endpoint does.
    pub open spec fn wf(self) -> bool {
        self.client is Some ==> self.grpc_endpoint is Some
    }

    /// The same pattern in another status.
    pub open spec fn with_status(self, status: StatusView) -> PatternView {
        PatternView { status, ..self }
    }

    /// What observers are shown of the pattern: name, status and endpoint.
    pub open spec fn snapshot(self) -> (Seq<char>, StatusView, Option<Seq<char>>) {
        (self.name, self.status, self.grpc_endpoint)
    }

    /// A launch that succeeded leaves a process and the endpoint on `port`; one
    /// that failed leaves the pattern as it was.
    pub open spec fn spawn(self, port: u16, launch: Result<(), String>) -> (
        PatternView,
        Result<(), ErrorView>,
    ) {
        match launch {
            Ok(_) => (
                PatternView { process: true, grpc_endpoint: Some(endpoint_text(port)), ..self },
                Ok(()),
            ),
            Err(message) => (self, Err(process_error(message@))),
        }
    }

    /// The connect step for attempt number `attempt`, if there is an endpoint
    /// to connect to.
    pub open spec fn connect_request(self, attempt: u32, backoff_ms: u64) -> Result<
        StepView,
        ErrorView,
    > {
        match self.grpc_endpoint {
            Some(endpoint) => Ok(StepView::Connect { endpoint, attempt, backoff_ms }),
            None => Err(no_endpoint_error()),
        }
    }

    /// A connect attempt that succeeded binds the client to the endpoint. One
    /// that failed is followed by its wait, and then by another attempt with
    /// twice the wait, unless it was the last: then nothing follows its wait.
    pub open spec fn connect_client(
        self,
        attempt: u32,
        backoff_ms: u64,
        channel: Result<(), String>,
    ) -> (PatternView, Result<ConnectProgress, ErrorView>) {
        match self.grpc_endpoint {
            None => (self, Err(no_endpoint_error())),
            Some(endpoint) => match channel {
                Ok(_) => (
                    PatternView { client: Some(endpoint), ..self },
                    Ok(ConnectProgress::Connected),
                ),
                Err(_) => if attempt >= MAX_CONNECT_ATTEMPTS {
                    (self, Ok(ConnectProgress::GiveUp { wait_ms: backoff_ms }))
                } else {
                    (
                        self,
                        Ok(
                            ConnectProgress::Retry {
                                wait_ms: backoff_ms,
                                attempt: (attempt + 1) as u32,
                                backoff_ms: next_backoff(backoff_ms),
                            },
                        ),
                    )
                },
            },
        }
    }

    /// The `Initialize` step, if there is a client to call through.
    pub open spec fn initialize_request(self) -> Result<StepView, ErrorView> {
        if self.client is Some {
            Ok(StepView::Initialize { name: self.name, version: self.version, config: self.config })
        } else {
            Err(no_client_error())
        }
    }

    /// The pattern once the backend has said this of itself.
    pub open spec fn described(self, metadata: Option<PatternMetadata>) -> PatternView {
        match metadata {
            Some(m) => PatternView { version: m.version@, ..self },
            None => self,
        }
    }

    /// An `Initialize` that succeeded records the version that the backend
    /// reported, if it reported one; one that failed changes nothing.
    pub open spec fn initialize_pattern(self, reply: Result<InitializeResponse, String>) -> (
        PatternView,
        Result<(), ErrorView>,
    ) {
        if self.client is None {
            (self, Err(no_client_error()))
        } else {
            match initialize_result(reply) {
                Ok(metadata) => (self.described(metadata), Ok(())),
                Err(error) => (self, Err(error)),
            }
        }
    }

    /// The `Start` step, if there is a client to call through.
    pub open spec fn start_request(self) -> Result<StepView, ErrorView> {
        if self.client is Some {
            Ok(StepView::Start)
        } else {
            Err(no_client_error())
        }
    }

    /// Whether a `Start` succeeded.
    pub open spec fn start_pattern(self, reply: Result<StartResponse, String>) -> Result<
        (),
        ErrorView,
    > {
        if self.client is None {
            Err(no_client_error())
        } else {
            match start_result(reply) {
                Ok(_) => Ok(()),
                Err(error) => Err(error),
            }
        }
    }

    /// The `Drain` step, if there is a client to call through.
    pub open spec fn drain_request(self, timeout_seconds: i32, reason: Seq<char>) -> Option<
        StepView,
    > {
        if self.client is Some {
            Some(StepView::Drain { timeout_seconds, reason })
        } else {
            None
        }
    }

    /// Whether a `Drain` succeeded. Without a client there was nothing to
    /// drain.
    pub open spec fn drain_pattern(self, reply: Result<DrainResponse, String>) -> Result<
        (),
        ErrorView,
    > {
        if self.client is None {
            Ok(())
        } else {
            drain_result(reply)
        }
    }

    /// The `Stop` step, if there is a client to call through.
    pub open spec fn stop_request(self) -> Option<StepView> {
        if self.client is Some {
            Some(StepView::Stop { timeout_seconds: STOP_TIMEOUT_SECONDS })
        } else {
            None
        }
    }

    /// What the last connect attempt leaves once its wait is over: its
    /// failure, with the transport's message.
    pub open spec fn connect_failure(self, message: Seq<char>) -> ErrorView {
        transport_error(message)
    }

    /// The pattern without its client.
    pub open spec fn drop_client(self) -> PatternView {
        PatternView { client: None, ..self }
    }

    /// The pattern without its process, and whether it had one.
    pub open spec fn take_process(self) -> (PatternView, bool) {
        (PatternView { process: false, ..self }, self.process)
    }

    /// What a health probe says of the pattern. Without a client it is
    /// `Uninitialized`, and that is no failure.
    pub open spec fn health_check_pattern(
        self,
        reply: Result<HealthCheckResponse, String>,
    ) -> Result<StatusView, ErrorView> {
        if self.client is None {
            Ok(StatusView::Uninitialized)
        } else {
            health_result(reply)
        }
    }
}

impl View for Pattern {
    type V = PatternView;

    closed spec fn view(&self) -> PatternView {
        PatternView {
            name: self.name@,
            version: self.version@,
            binary_path: self.binary_path,
            status: self.status@,
            process: self.process,
            grpc_endpoint: text_view(self.grpc_endpoint),
            client: match self.client {
                Some(client) => Some(client@),
                None => None,
            },
            config: json_text(self.config),
        }
    }
}

impl Pattern {
    /// A pattern that was never started: no version, no process, no
    /// endpoint, no client, and an empty object as configuration.
    pub fn new(name: String, binary_path: std::path::PathBuf) -> (pattern: Pattern)
        ensures
            pattern@ == fresh_pattern(name@, binary_path),
    {
        Pattern {
            name,
            version: String::new(),
            binary_path,
            status: PatternStatus::Uninitialized,
            process: false,
            grpc_endpoint: None,
            client: None,
            config: empty_object(),
        }
    }

    /// The same pattern with `config` as its configuration.
    pub fn with_config(self, config: serde_json::Value) -> (pattern: Pattern)
        ensures
            pattern@ == (PatternView { config: json_text(config), ..self@ }),
    {
        let mut pattern = self;
        pattern.config = config;
        pattern
    }

    /// The name under which the pattern is registered.
    pub fn name(&self) -> (name: &str)
        ensures
            name@ == self@.name,
    {
        self.name.as_str()
    }

    /// Whether the pattern is registered under `name`.
    pub fn has_name(&self, name: &String) -> (same: bool)
        ensures
            same == (self@.name == name@),
    {
        self.name == *name
    }

    /// The version that the backend reported, empty until it did.
    pub fn version(&self) -> (version: &str)
        ensures
            version@ == self@.version,
    {
        self.version.as_str()
    }

    /// Where the backend's binary is.
    pub fn binary_path(&self) -> (path: &std::path::PathBuf)
        ensures
            *path == self@.binary_path,
    {
        &self.binary_path
    }

    /// The configuration.
    pub fn config(&self) -> (config: &serde_json::Value)
        ensures
            json_text(*config) == self@.config,
    {
        &self.config
    }

    /// The current status.
    pub fn status(&self) -> (status: &PatternStatus)
        ensures
            status@ == self@.status,
    {
        &self.status
    }

    /// Whether the backend is believed to serve: the status is `Running` or
    /// `Degraded`.
    pub fn is_running(&self) -> (running: bool)
        ensures
            running == self@.status.is_running(),
    {
        self.status.is_running()
    }

    /// Whether the host holds a process that is believed alive.
    pub fn has_process(&self) -> (present: bool)
        ensures
            present == self@.process,
    {
        self.process
    }

    /// Whether a connect has succeeded.
    pub fn has_client(&self) -> (present: bool)
        ensures
            present == (self@.client is Some),
    {
        self.client.is_some()
    }

    /// The endpoint of the backend's lifecycle listener, once it was launched.
    pub fn grpc_endpoint(&self) -> (endpoint: Option<String>)
        ensures
            text_view(endpoint) == self@.grpc_endpoint,
    {
        match &self.grpc_endpoint {
            Some(endpoint) => Some(endpoint.clone()),
            None => None,
        }
    }

    /// What observers are shown of the pattern: name, status and endpoint.
    pub fn snapshot(&self) -> (shown: (String, PatternStatus, Option<String>))
        ensures
            (shown.0@, shown.1@, text_view(shown.2)) == self@.snapshot(),
    {
        (self.name.clone(), self.status.clone(), self.grpc_endpoint())
    }

    /// Moves the pattern to `status`.
    pub(crate) fn set_status(&mut self, status: PatternStatus)
        ensures
            final(self)@ == old(self)@.with_status(status@),
    {
        self.status = status;
    }

    /// Records how the launch of the process went. On success the process is
    /// held and the endpoint is the one on `port`; on failure nothing changes
    /// and the operating system's message is the error.
    pub fn spawn(&mut self, port: u16, launch: Result<(), String>) -> (result: Result<
        (),
        LifecycleError,
    >)
        ensures
            (final(self)@, lift(result)) == old(self)@.spawn(port, launch),
    {
        match launch {
            Ok(_) => {
                self.process = true;
                self.grpc_endpoint = Some(endpoint_for(port));
                Ok(())
            },
            Err(message) => Err(LifecycleError::new(ErrorKind::Process, message)),
        }
    }

    /// The connect step for attempt number `attempt`; fails at once where the
    /// pattern has no endpoint.
    pub fn connect_request(&self, attempt: u32, backoff_ms: u64) -> (result: Result<
        Step,
        LifecycleError,
    >)
        ensures
            match result {
                Ok(step) => Ok::<StepView, ErrorView>(step@),
                Err(error) => Err(error@),
            } == self@.connect_request(attempt, backoff_ms),
    {
        match &self.grpc_endpoint {
            Some(endpoint) => Ok(Step::Connect { endpoint: endpoint.clone(), attempt, backoff_ms }),
            None => Err(LifecycleError::no_endpoint()),
        }
    }

    /// Records how connect attempt number `attempt` went. Fails at once
    /// where the pattern has no endpoint. On success the client is bound to
    /// the endpoint. On failure the attempt's wait of `backoff_ms` follows,
    /// and after it another attempt with twice the wait up to
    /// `MAX_BACKOFF_MS`, unless this was attempt `MAX_CONNECT_ATTEMPTS` or
    /// later: then the wait is the last thing to happen.
    pub fn connect_client(
        &mut self,
        attempt: u32,
        backoff_ms: u64,
        channel: Result<(), String>,
    ) -> (result: Result<ConnectProgress, LifecycleError>)
        ensures
            (final(self)@, lift(result)) == old(self)@.connect_client(attempt, backoff_ms, channel),
    {
        let endpoint = match &self.grpc_endpoint {
            Some(endpoint) => endpoint.clone(),
            None => {
                return Err(LifecycleError::no_endpoint());
            },
        };
        if channel.is_err() {
            if attempt >= MAX_CONNECT_ATTEMPTS {
                return Ok(ConnectProgress::GiveUp { wait_ms: backoff_ms });
            }
            let next = if backoff_ms >= MAX_BACKOFF_MS / 2 {
                MAX_BACKOFF_MS
            } else {
                2 * backoff_ms
            };
            return Ok(
                ConnectProgress::Retry { wait_ms: backoff_ms, attempt: attempt + 1, backoff_ms: next },
            );
        }
        match PatternClient::connect(endpoint, channel) {
            Ok(client) => {
                self.client = Some(client);
                Ok(ConnectProgress::Connected)
            },
            Err(error) => Err(error),
        }
    }

    /// The `Initialize` step, with the pattern's name, version and
    /// configuration; fails at once where the pattern has no client.
    pub fn initialize_request(&self) -> (result: Result<Step, LifecycleError>)
        ensures
            match result {
                Ok(step) => Ok::<StepView, ErrorView>(step@),
                Err(error) => Err(error@),
            } == self@.initialize_request(),
    {
        if self.client.is_some() {
            Ok(
                Step::Initialize {
                    name: self.name.clone(),
                    version: self.version.clone(),
                    config: self.config.clone(),
                },
            )
        } else {
            Err(LifecycleError::no_client())
        }
    }

    /// Records the reply to `Initialize`. Fails at once where the pattern
    /// has no client; otherwise the client's reading of the reply decides,
    /// and a version that the backend reported is kept.
    pub fn initialize_pattern(&mut self, reply: Result<InitializeResponse, String>) -> (result:
        Result<(), LifecycleError>)
        ensures
            (final(self)@, lift(result)) == old(self)@.initialize_pattern(reply),
    {
        let outcome = match &self.client {
            Some(client) => client.initialize(reply),
            None => {
                return Err(LifecycleError::no_client());
            },
        };
        match outcome {
            Ok(metadata) => {
                match metadata {
                    Some(m) => {
                        self.version = m.version;
                    },
                    None => {},
                }
                Ok(())
            },
            Err(error) => Err(error),
        }
    }

    /// The `Start` step; fails at once where the pattern has no client.
    pub fn start_request(&self) -> (result: Result<Step, LifecycleError>)
        ensures
            match result {
                Ok(step) => Ok::<StepView, ErrorView>(step@),
                Err(error) => Err(error@),
            } == self@.start_request(),
    {
        if self.client.is_some() {
            Ok(Step::Start)
        } else {
            Err(LifecycleError::no_client())
        }
    }

    /// Reads the reply to `Start`. Fails at once where the pattern has no
    /// client; otherwise the client's reading of the reply decides.
    pub fn start_pattern(&self, reply: Result<StartResponse, String>) -> (result: Result<
        (),
        LifecycleError,
    >)
        ensures
            lift(result) == self@.start_pattern(reply),
    {
        match &self.client {
            Some(client) => match client.start(reply) {
                Ok(_) => Ok(()),
                Err(error) => Err(error),
            },
            None => Err(LifecycleError::no_client()),
        }
    }

    /// The `Drain` step, where the pattern has a client to call through.
    pub fn drain_request(&self, timeout_seconds: i32, reason: String) -> (step: Option<Step>)
        ensures
            match step {
                Some(s) => Some(s@),
                None => None,
            } == self@.drain_request(timeout_seconds, reason@),
    {
        if self.client.is_some() {
            Some(Step::Drain { timeout_seconds, reason })
        } else {
            None
        }
    }

    /// Reads the reply to `Drain`.
    pub fn drain_pattern(&self, reply: Result<DrainResponse, String>) -> (result: Result<
        (),
        LifecycleError,
    >)
        ensures
            lift(result) == self@.drain_pattern(reply),
    {
        match &self.client {
            Some(client) => client.drain(reply),
            None => Ok(()),
        }
    }

    /// The `Stop` step, where the pattern has a client to call through.
    pub fn stop_request(&self) -> (step: Option<Step>)
        ensures
            match step {
                Some(s) => Some(s@),
                None => None,
            } == self@.stop_request(),
    {
        if self.client.is_some() {
            Some(Step::Stop { timeout_seconds: STOP_TIMEOUT_SECONDS })
        } else {
            None
        }
    }

    /// The failure that the last connect attempt leaves once its wait is
    /// over: the transport's message, as an error.
    pub fn connect_failure(&self, message: String) -> (error: LifecycleError)
        ensures
            error@ == self@.connect_failure(message@),
    {
        LifecycleError::new(ErrorKind::Transport, message)
    }

    /// Drops the client: the channel to a backend that is stopped is of no
    /// use.
    pub fn drop_client(&mut self)
        ensures
            final(self)@ == old(self)@.drop_client(),
    {
        self.client = None;
    }

    /// Gives up the process, and says whether there was one to end.
    pub fn take_process(&mut self) -> (held: bool)
        ensures
            (final(self)@, held) == old(self)@.take_process(),
    {
        let held = self.process;
        self.process = false;
        held
    }

    /// Reads the reply to `HealthCheck`. Without a client the pattern is
    /// `Uninitialized`, whatever the reply, and that is no failure.
    pub fn health_check_pattern(&self, reply: Result<HealthCheckResponse, String>) -> (result:
        Result<PatternStatus, LifecycleError>)
        ensures
            lift_status(result) == self@.health_check_pattern(reply),
    {
        match &self.client {
            Some(client) => client.health_check(reply),
            None => Ok(PatternStatus::Uninitialized),
        }
    }

    /// A copy of the binary's location, for the step that launches it.
    pub(crate) fn spawn_request(&self, port: u16) -> (step: Step)
        ensures
            step@ == (StepView::Spawn { binary_path: self@.binary_path, port }),
    {
        Step::Spawn { binary_path: self.binary_path.clone(), port }
    }
}

} // verus!
