//! Lifecycle orchestration for the backend worker processes of a gateway.
//!
//! The library decides; its host acts. Every operation that needs outside
//! work (launching a process, a remote call, a wait) hands the host a step
//! to perform and takes the outcome back, so that each decision is a plain
//! function of the registry and of what the host observed.

pub mod client;
pub mod config;
pub mod error;
pub mod fleet;
pub mod laws;
pub mod manager;
pub mod model;
pub mod outside;
pub mod pattern;
pub mod server;
pub mod status;
pub mod step;
pub mod text;

pub use crate::client::PatternClient;
pub use crate::config::{PatternConfig, ProxyConfig};
pub use crate::error::{ErrorKind, LifecycleError};
pub use crate::fleet::{Failure, FleetOp, FleetStep};
pub use crate::manager::{HealthStep, PatternManager};
pub use crate::pattern::Pattern;
pub use crate::server::{DrainState, ProxyServer, ShutdownEvent, ShutdownStep};
pub use crate::status::{HealthStatus, PatternStatus};
pub use crate::step::{Outcome, Step};
