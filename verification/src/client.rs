//! The lifecycle calls of one backend, as far as the gateway decides them:
//! what each reply means.
//!
//! The host sends the request and hands over what came back, a reply or the
//! message of the transport failure; the methods here turn that into the
//! call's result.

use vstd::prelude::*;
use crate::error::{lift, ErrorKind, ErrorView, LifecycleError};
use crate::status::{health_status, HealthStatus, PatternStatus, StatusView};
use crate::text::prefixed;

verus! {

/// What a backend says of itself when it has been initialized.
#[derive(Debug, Clone, PartialEq, Eq)]
pub struct PatternMetadata {
    pub name: String,
    pub version: String,
}

/// The reply to `Initialize`.
#[derive(Debug, Clone, PartialEq, Eq)]
pub struct InitializeResponse {
    pub success: bool,
    pub error: String,
    pub metadata: Option<PatternMetadata>,
}

/// The reply to `Start`.
#[derive(Debug, Clone, PartialEq, Eq)]
pub struct StartResponse {
    pub success: bool,
    pub error: String,
    pub data_endpoint: String,
}

/// The reply to `Drain`.
#[derive(Debug, Clone, PartialEq, Eq)]
pub struct DrainResponse {
    pub success: bool,
    pub error: String,
}

/// The reply to `Stop`.
#[derive(Debug, Clone, PartialEq, Eq)]
pub struct StopResponse {
    pub success: bool,
    pub error: String,
}

/// The reply to `HealthCheck`.
#[derive(Debug, Clone, PartialEq, Eq)]
pub struct HealthCheckResponse {
    pub status: HealthStatus,
    pub message: String,
}

/// The failure of a call that did not complete, with the transport's message.
pub open spec fn transport_error(message: Seq<char>) -> ErrorView {
    ErrorView { kind: ErrorKind::Transport, message }
}

/// The failure that a backend reported, told with the call's name in front.
pub open spec fn refusal(prefix: Seq<char>, error: Seq<char>) -> ErrorView {
    ErrorView { kind: ErrorKind::Logical, message: prefix + error }
}

/// What a connect attempt on `endpoint` gives: the endpoint that the client
/// is bound to, or the transport's failure.
pub open spec fn connect_result(endpoint: Seq<char>, channel: Result<(), String>) -> Result<
    Seq<char>,
    ErrorView,
> {
    match channel {
        Ok(_) => Ok(endpoint),
        Err(message) => Err(transport_error(message@)),
    }
}

/// What `Initialize` gives: the backend's metadata, its reported failure, or
/// the transport's.
pub open spec fn initialize_result(reply: Result<InitializeResponse, String>) -> Result<
    Option<PatternMetadata>,
    ErrorView,
> {
    match reply {
        Ok(response) => if response.success {
            Ok(response.metadata)
        } else {
            Err(refusal("Initialize failed: "@, response.error@))
        },
        Err(message) => Err(transport_error(message@)),
    }
}

/// What `Start` gives: the backend's data endpoint, its reported failure, or
/// the transport's.
pub open spec fn start_result(reply: Result<StartResponse, String>) -> Result<String, ErrorView> {
    match reply {
        Ok(response) => if response.success {
            Ok(response.data_endpoint)
        } else {
            Err(refusal("Start failed: "@, response.error@))
        },
        Err(message) => Err(transport_error(message@)),
    }
}

/// What `Drain` gives: nothing, the backend's reported failure, or the
/// transport's.
pub open spec fn drain_result(reply: Result<DrainResponse, String>) -> Result<(), ErrorView> {
    match reply {
        Ok(response) => if response.success {
            Ok(())
        } else {
            Err(refusal("Drain failed: "@, response.error@))
        },
        Err(message) => Err(transport_error(message@)),
    }
}

/// What `Stop` gives: nothing, the backend's reported failure, or the
/// transport's.
pub open spec fn stop_result(reply: Result<StopResponse, String>) -> Result<(), ErrorView> {
    match reply {
        Ok(response) => if response.success {
            Ok(())
        } else {
            Err(refusal("Stop failed: "@, response.error@))
        },
        Err(message) => Err(transport_error(message@)),
    }
}

/// What `HealthCheck` gives: the status that the report stands for, or the
/// transport's failure.
pub open spec fn health_result(reply: Result<HealthCheckResponse, String>) -> Result<
    StatusView,
    ErrorView,
> {
    match reply {
        Ok(response) => Ok(health_status(response.status, response.message@)),
        Err(message) => Err(transport_error(message@)),
    }
}

/// A result with its status and its error taken by their views.
pub open spec fn lift_status(result: Result<PatternStatus, LifecycleError>) -> Result<
    StatusView,
    ErrorView,
> {
    match result {
        Ok(status) => Ok(status@),
        Err(error) => Err(error@),
    }
}

/// The handle on one backend's lifecycle calls. It is bound to exactly one
/// endpoint.
#[derive(Debug, PartialEq, Eq)]
pub struct PatternClient {
    endpoint: String,
}

impl View for PatternClient {
    type V = Seq<char>;

    closed spec fn view(&self) -> Seq<char> {
        self.endpoint@
    }
}

impl PatternClient {
    /// Binds a client to `endpoint` if the channel to it was established;
    /// otherwise the transport's message comes back as the failure.
    pub fn connect(endpoint: String, channel: Result<(), String>) -> (result: Result<
        PatternClient,
        LifecycleError,
    >)
        ensures
            match result {
                Ok(client) => Ok::<Seq<char>, ErrorView>(client@),
                Err(error) => Err(error@),
            } == connect_result(endpoint@, channel),
    {
        match channel {
            Ok(_) => Ok(PatternClient { endpoint }),
            Err(message) => Err(LifecycleError::new(ErrorKind::Transport, message)),
        }
    }

    /// The endpoint that the client is bound to.
    pub fn endpoint(&self) -> (endpoint: &str)
        ensures
            endpoint@ == self@,
    {
        self.endpoint.as_str()
    }

    /// Reads the reply to `Initialize`.
    pub fn initialize(&self, reply: Result<InitializeResponse, String>) -> (result: Result<
        Option<PatternMetadata>,
        LifecycleError,
    >)
        ensures
            lift(result) == initialize_result(reply),
    {
        match reply {
            Ok(response) => {
                if response.success {
                    Ok(response.metadata)
                } else {
                    Err(
                        LifecycleError::new(
                            ErrorKind::Logical,
                            prefixed("Initialize failed: ", response.error.as_str()),
                        ),
                    )
                }
            },
            Err(message) => Err(LifecycleError::new(ErrorKind::Transport, message)),
        }
    }

    /// Reads the reply to `Start`.
    pub fn start(&self, reply: Result<StartResponse, String>) -> (result: Result<
        String,
        LifecycleError,
    >)
        ensures
            lift(result) == start_result(reply),
    {
        match reply {
            Ok(response) => {
                if response.success {
                    Ok(response.data_endpoint)
                } else {
                    Err(
                        LifecycleError::new(
                            ErrorKind::Logical,
                            prefixed("Start failed: ", response.error.as_str()),
                        ),
                    )
                }
            },
            Err(message) => Err(LifecycleError::new(ErrorKind::Transport, message)),
        }
    }

    /// Reads the reply to `Drain`.
    pub fn drain(&self, reply: Result<DrainResponse, String>) -> (result: Result<
        (),
        LifecycleError,
    >)
        ensures
            lift(result) == drain_result(reply),
    {
        match reply {
            Ok(response) => {
                if response.success {
                    Ok(())
                } else {
                    Err(
                        LifecycleError::new(
                            ErrorKind::Logical,
                            prefixed("Drain failed: ", response.error.as_str()),
                        ),
                    )
                }
            },
            Err(message) => Err(LifecycleError::new(ErrorKind::Transport, message)),
        }
    }

    /// Reads the reply to `Stop`.
    pub fn stop(&self, reply: Result<StopResponse, String>) -> (result: Result<
        (),
        LifecycleError,
    >)
        ensures
            lift(result) == stop_result(reply),
    {
        match reply {
            Ok(response) => {
                if response.success {
                    Ok(())
                } else {
                    Err(
                        LifecycleError::new(
                            ErrorKind::Logical,
                            prefixed("Stop failed: ", response.error.as_str()),
                        ),
                    )
                }
            },
            Err(message) => Err(LifecycleError::new(ErrorKind::Transport, message)),
        }
    }

    /// Reads the reply to `HealthCheck`.
    pub fn health_check(&self, reply: Result<HealthCheckResponse, String>) -> (result: Result<
        PatternStatus,
        LifecycleError,
    >)
        ensures
            lift_status(result) == health_result(reply),
    {
        match reply {
            Ok(response) => Ok(PatternStatus::from_health(response.status, response.message)),
            Err(message) => Err(LifecycleError::new(ErrorKind::Transport, message)),
        }
    }
}

} // verus!
